use crate::error::Error;
use crate::record::{
    BookmarkItemRecord, BookmarkRecord, FolderRecord, QueryRecord, SeparatorRecord, same_opt_guid,
};
use crate::types::{SyncGuid, SyncedBookmarkKind};
use vstd::prelude::*;

verus! {

/// One item staged for upload.
#[derive(Debug, Clone)]
pub struct UploadRow {
    /// The local row id, which the staged child lists refer to.
    pub id: i64,
    pub guid: SyncGuid,
    pub is_deleted: bool,
    /// The record kind; absent for a tombstone.
    pub kind: Option<SyncedBookmarkKind>,
    pub title: String,
    pub url: Option<String>,
    pub position: i64,
    pub parent_guid: Option<SyncGuid>,
    pub parent_title: String,
    pub date_added: i64,
}

/// A child of a staged folder, as staged with the upload.
#[derive(Debug, Clone)]
pub struct StructureUploadRow {
    pub parent_id: i64,
    pub guid: SyncGuid,
    pub position: i64,
}

/// Whether structure rows are ordered by parent and then by position.
pub open spec fn structure_sorted(s: Seq<StructureUploadRow>) -> bool {
    forall|i: int, j: int|
        0 <= i < j < s.len() ==> (#[trigger] s[i]).parent_id < (#[trigger] s[j]).parent_id || (
        s[i].parent_id == s[j].parent_id && s[i].position <= s[j].position)
}

/// The staged child rows of the folder with local id `parent_id`, in the
/// order of `s`.
pub open spec fn child_rows_of(s: Seq<StructureUploadRow>, parent_id: i64) -> Seq<StructureUploadRow>
    decreases s.len(),
{
    if s.len() == 0 {
        Seq::empty()
    } else {
        let rest = child_rows_of(s.drop_last(), parent_id);
        if s.last().parent_id == parent_id {
            rest.push(s.last())
        } else {
            rest
        }
    }
}

/// The GUIDs of the staged children of the folder with local id `parent_id`,
/// in the order of `s`: by position, when `s` is sorted.
pub open spec fn children_of(s: Seq<StructureUploadRow>, parent_id: i64) -> Seq<Seq<char>> {
    child_rows_of(s, parent_id).map_values(|r: StructureUploadRow| r.guid@)
}

proof fn lemma_child_rows_from(s: Seq<StructureUploadRow>, parent_id: i64)
    ensures
        forall|k: int|
            0 <= k < child_rows_of(s, parent_id).len() ==> exists|m: int|
                0 <= m < s.len() && s[m] == #[trigger] child_rows_of(s, parent_id)[k]
                    && s[m].parent_id == parent_id,
    decreases s.len(),
{
    if s.len() > 0 {
        let prev = s.drop_last();
        lemma_child_rows_from(prev, parent_id);
        assert forall|k: int| 0 <= k < child_rows_of(s, parent_id).len() implies exists|m: int|
            0 <= m < s.len() && s[m] == #[trigger] child_rows_of(s, parent_id)[k] && s[m].parent_id
                == parent_id by {
            if k < child_rows_of(prev, parent_id).len() {
                let m = choose|m: int|
                    0 <= m < prev.len() && prev[m] == child_rows_of(prev, parent_id)[k]
                        && prev[m].parent_id == parent_id;
                assert(s[m] == prev[m]);
            } else {
                assert(s[s.len() - 1] == s.last());
            }
        }
    }
}

/// When the staged structure rows are ordered by parent and position, each
/// folder's children come in ascending position.
pub proof fn lemma_children_ascending(s: Seq<StructureUploadRow>, parent_id: i64)
    requires
        structure_sorted(s),
    ensures
        forall|i: int, j: int|
            0 <= i < j < child_rows_of(s, parent_id).len() ==> (#[trigger] child_rows_of(
                s,
                parent_id,
            )[i]).position <= (#[trigger] child_rows_of(s, parent_id)[j]).position,
    decreases s.len(),
{
    if s.len() > 0 {
        let prev = s.drop_last();
        assert(structure_sorted(prev));
        lemma_children_ascending(prev, parent_id);
        lemma_child_rows_from(prev, parent_id);
        let c = child_rows_of(s, parent_id);
        let cp = child_rows_of(prev, parent_id);
        assert forall|i: int, j: int| 0 <= i < j < c.len() implies (#[trigger] c[i]).position <= (
        #[trigger] c[j]).position by {
            if j < cp.len() {
                assert(c[i] == cp[i] && c[j] == cp[j]);
            } else {
                assert(c[i] == cp[i]);
                let m = choose|m: int| 0 <= m < prev.len() && prev[m] == cp[i] && prev[m].parent_id == parent_id;
                assert(s[m] == prev[m]);
                assert(c[j] == s[s.len() - 1]);
            }
        }
    }
}

/// Whether a staged row yields a record (`Ok(true)`), is skipped
/// (`Ok(false)`, livemarks), or cannot be shaped.
pub open spec fn outgoing_outcome(row: UploadRow) -> Result<bool, Error> {
    if row.is_deleted {
        Ok(true)
    } else {
        match row.kind {
            None => Err(Error::UnsupportedKind),
            Some(SyncedBookmarkKind::Livemark) => Ok(false),
            Some(_) => Ok(true),
        }
    }
}

/// The GUIDs of a list, as characters.
pub open spec fn guid_views(v: Seq<SyncGuid>) -> Seq<Seq<char>> {
    v.map_values(|g: SyncGuid| g@)
}

/// The fields that every outgoing live record takes from its staged row.
pub open spec fn common_for_row(
    guid: SyncGuid,
    parent_guid: Option<SyncGuid>,
    has_dupe: bool,
    parent_title: Option<String>,
    date_added: Option<i64>,
    row: UploadRow,
) -> bool {
    &&& guid@ == row.guid@
    &&& same_opt_guid(parent_guid, row.parent_guid)
    &&& has_dupe
    &&& parent_title == Some(row.parent_title)
    &&& date_added == Some(row.date_added)
}

/// Whether `rec` is the outgoing record of the staged `row`, whose folder
/// children (if it is a folder) are `children`.
pub open spec fn record_for_row(rec: BookmarkItemRecord, row: UploadRow, children: Seq<Seq<char>>) -> bool {
    match rec {
        BookmarkItemRecord::Tombstone(g) => row.is_deleted && g@ == row.guid@,
        BookmarkItemRecord::Bookmark(b) => {
            &&& !row.is_deleted && row.kind == Some(SyncedBookmarkKind::Bookmark)
            &&& common_for_row(b.guid, b.parent_guid, b.has_dupe, b.parent_title, b.date_added, row)
            &&& b.title == Some(row.title) && b.url == row.url
            &&& b.keyword.is_none() && b.tags@.len() == 0
        },
        BookmarkItemRecord::Query(q) => {
            &&& !row.is_deleted && row.kind == Some(SyncedBookmarkKind::Query)
            &&& common_for_row(q.guid, q.parent_guid, q.has_dupe, q.parent_title, q.date_added, row)
            &&& q.title == Some(row.title) && q.url == row.url
            &&& q.tag_folder_name.is_none()
        },
        BookmarkItemRecord::Folder(f) => {
            &&& !row.is_deleted && row.kind == Some(SyncedBookmarkKind::Folder)
            &&& common_for_row(f.guid, f.parent_guid, f.has_dupe, f.parent_title, f.date_added, row)
            &&& f.title == Some(row.title)
            &&& guid_views(f.children@) == children
        },
        BookmarkItemRecord::Livemark(_) => false,
        BookmarkItemRecord::Separator(s) => {
            &&& !row.is_deleted && row.kind == Some(SyncedBookmarkKind::Separator)
            &&& common_for_row(s.guid, s.parent_guid, s.has_dupe, s.parent_title, s.date_added, row)
            &&& s.position == Some(row.position)
        },
    }
}

/// Collects the staged children of one folder.
pub fn child_guids(structure: &Vec<StructureUploadRow>, parent_id: i64) -> (r: Vec<SyncGuid>)
    ensures
        guid_views(r@) == children_of(structure@, parent_id),
{
    let mut r: Vec<SyncGuid> = Vec::new();
    let mut i: usize = 0;
    while i < structure.len()
        invariant
            i <= structure@.len(),
            guid_views(r@) == children_of(structure@.take(i as int), parent_id),
        decreases structure.len() - i,
    {
        assert(structure@.take(i + 1).drop_last() =~= structure@.take(i as int));
        let row = &structure[i];
        if row.parent_id == parent_id {
            let ghost before = r@;
            r.push(row.guid.cloned());
            assert(guid_views(r@) =~= guid_views(before).push(row.guid@));
            assert(children_of(structure@.take(i + 1), parent_id) =~= children_of(
                structure@.take(i as int),
                parent_id,
            ).push(row.guid@));
        }
        i = i + 1;
    }
    assert(structure@.take(structure@.len() as int) =~= structure@);
    r
}

/// Shapes the outgoing record of one staged row. Livemarks are never
/// uploaded; a folder's children come from the staged child lists.
pub fn outgoing_record(row: &UploadRow, structure: &Vec<StructureUploadRow>) -> (r: Result<
    Option<BookmarkItemRecord>,
    Error,
>)
    ensures
        match r {
            Ok(Some(rec)) => outgoing_outcome(*row) == Ok::<bool, Error>(true) && record_for_row(
                rec,
                *row,
                children_of(structure@, row.id),
            ),
            Ok(None) => outgoing_outcome(*row) == Ok::<bool, Error>(false),
            Err(e) => outgoing_outcome(*row) == Err::<bool, Error>(e),
        },
{
    if row.is_deleted {
        return Ok(Some(BookmarkItemRecord::Tombstone(row.guid.cloned())));
    }
    let kind = match row.kind {
        Some(k) => k,
        None => {
            return Err(Error::UnsupportedKind);
        },
    };
    let parent_guid = match &row.parent_guid {
        Some(p) => Some(p.cloned()),
        None => None,
    };
    let url = match &row.url {
        Some(u) => Some(u.clone()),
        None => None,
    };
    match kind {
        SyncedBookmarkKind::Bookmark => Ok(
            Some(
                BookmarkItemRecord::Bookmark(
                    BookmarkRecord {
                        guid: row.guid.cloned(),
                        parent_guid,
                        has_dupe: true,
                        parent_title: Some(row.parent_title.clone()),
                        date_added: Some(row.date_added),
                        title: Some(row.title.clone()),
                        url,
                        keyword: None,
                        tags: Vec::new(),
                    },
                ),
            ),
        ),
        SyncedBookmarkKind::Query => Ok(
            Some(
                BookmarkItemRecord::Query(
                    QueryRecord {
                        guid: row.guid.cloned(),
                        parent_guid,
                        has_dupe: true,
                        parent_title: Some(row.parent_title.clone()),
                        date_added: Some(row.date_added),
                        title: Some(row.title.clone()),
                        url,
                        tag_folder_name: None,
                    },
                ),
            ),
        ),
        SyncedBookmarkKind::Folder => Ok(
            Some(
                BookmarkItemRecord::Folder(
                    FolderRecord {
                        guid: row.guid.cloned(),
                        parent_guid,
                        has_dupe: true,
                        parent_title: Some(row.parent_title.clone()),
                        date_added: Some(row.date_added),
                        title: Some(row.title.clone()),
                        children: child_guids(structure, row.id),
                    },
                ),
            ),
        ),
        SyncedBookmarkKind::Livemark => Ok(None),
        SyncedBookmarkKind::Separator => Ok(
            Some(
                BookmarkItemRecord::Separator(
                    SeparatorRecord {
                        guid: row.guid.cloned(),
                        parent_guid,
                        has_dupe: true,
                        parent_title: Some(row.parent_title.clone()),
                        date_added: Some(row.date_added),
                        position: Some(row.position),
                    },
                ),
            ),
        ),
    }
}

/// The staged rows that yield a record, in staged order.
pub open spec fn emitted(s: Seq<UploadRow>) -> Seq<UploadRow>
    decreases s.len(),
{
    if s.len() == 0 {
        Seq::empty()
    } else {
        let rest = emitted(s.drop_last());
        if outgoing_outcome(s.last()) == Ok::<bool, Error>(true) {
            rest.push(s.last())
        } else {
            rest
        }
    }
}

/// Whether `out` holds, in order, the records of the rows of `rows` that
/// yield one.
pub open spec fn records_for_rows(
    out: Seq<BookmarkItemRecord>,
    rows: Seq<UploadRow>,
    structure: Seq<StructureUploadRow>,
) -> bool {
    let e = emitted(rows);
    &&& out.len() == e.len()
    &&& forall|j: int|
        0 <= j < out.len() ==> record_for_row(
            #[trigger] out[j],
            e[j],
            children_of(structure, e[j].id),
        )
}

/// Inflates the records of all staged rows: every staged item and tombstone
/// but livemarks gets one, in staged order, and a folder's children come in
/// ascending position from the staged child lists, which are to be handed in
/// ordered by parent and position. Fails on the first row whose kind is
/// unknown.
pub fn fetch_outgoing_records(rows: &Vec<UploadRow>, structure: &Vec<StructureUploadRow>) -> (r:
    Result<Vec<BookmarkItemRecord>, Error>)
    requires
        structure_sorted(structure@),
    ensures
        match r {
            Ok(out) => records_for_rows(out@, rows@, structure@) && forall|i: int|
                0 <= i < rows@.len() ==> outgoing_outcome(#[trigger] rows@[i]) is Ok,
            Err(e) => exists|i: int|
                0 <= i < rows@.len() && outgoing_outcome(#[trigger] rows@[i]) == Err::<
                    bool,
                    Error,
                >(e),
        },
{
    let mut out: Vec<BookmarkItemRecord> = Vec::new();
    let mut i: usize = 0;
    while i < rows.len()
        invariant
            i <= rows@.len(),
            records_for_rows(out@, rows@.take(i as int), structure@),
            forall|k: int| 0 <= k < i ==> outgoing_outcome(#[trigger] rows@[k]) is Ok,
        decreases rows.len() - i,
    {
        assert(rows@.take(i + 1).drop_last() =~= rows@.take(i as int));
        assert(rows@.take(i + 1).last() == rows@[i as int]);
        match outgoing_record(&rows[i], structure) {
            Ok(Some(rec)) => {
                out.push(rec);
            },
            Ok(None) => {},
            Err(e) => {
                return Err(e);
            },
        }
        i = i + 1;
    }
    assert(rows@.take(rows@.len() as int) =~= rows@);
    Ok(out)
}

} // verus!
