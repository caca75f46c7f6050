use places::error::Error;
use places::outgoing::{child_guids, fetch_outgoing_records, StructureUploadRow, UploadRow};
use places::record::BookmarkItemRecord;
use places::types::{SyncGuid, SyncedBookmarkKind};

fn row(id: i64, guid: &str, kind: Option<SyncedBookmarkKind>) -> UploadRow {
    UploadRow {
        id,
        guid: SyncGuid(guid.to_string()),
        is_deleted: false,
        kind,
        title: format!("title {}", id),
        url: Some(format!("http://example.com/{}", id)),
        position: id,
        parent_guid: Some(SyncGuid("unfiled_____".to_string())),
        parent_title: "Unfiled".to_string(),
        date_added: 1552183116885,
    }
}

fn child(parent_id: i64, guid: &str, position: i64) -> StructureUploadRow {
    StructureUploadRow { parent_id, guid: SyncGuid(guid.to_string()), position }
}

#[test]
fn staged_rows_become_records() {
    let mut tomb = row(9, "deadbeef____", None);
    tomb.is_deleted = true;
    let rows = vec![
        row(1, "bookmarkAAAA", Some(SyncedBookmarkKind::Bookmark)),
        row(2, "unfiled_____", Some(SyncedBookmarkKind::Folder)),
        row(3, "livemark1___", Some(SyncedBookmarkKind::Livemark)),
        row(4, "sep1________", Some(SyncedBookmarkKind::Separator)),
        row(5, "query1______", Some(SyncedBookmarkKind::Query)),
        tomb,
    ];
    let structure = vec![
        child(2, "bookmarkAAAA", 0),
        child(2, "bookmarkBBBB", 1),
        child(7, "bookmarkZZZZ", 0),
    ];
    let out = fetch_outgoing_records(&rows, &structure).unwrap();
    assert_eq!(out.len(), 5);
    match &out[0] {
        BookmarkItemRecord::Bookmark(b) => {
            assert_eq!(b.guid.0, "bookmarkAAAA");
            assert!(b.has_dupe);
            assert_eq!(b.url.as_deref(), Some("http://example.com/1"));
            assert_eq!(b.title.as_deref(), Some("title 1"));
            assert_eq!(b.parent_title.as_deref(), Some("Unfiled"));
            assert_eq!(b.date_added, Some(1552183116885));
        }
        other => panic!("unexpected {:?}", other),
    }
    match &out[1] {
        BookmarkItemRecord::Folder(f) => {
            let kids: Vec<&str> = f.children.iter().map(|g| g.0.as_str()).collect();
            assert_eq!(kids, vec!["bookmarkAAAA", "bookmarkBBBB"]);
        }
        other => panic!("unexpected {:?}", other),
    }
    match &out[2] {
        BookmarkItemRecord::Separator(s) => assert_eq!(s.position, Some(4)),
        other => panic!("unexpected {:?}", other),
    }
    assert!(matches!(&out[3], BookmarkItemRecord::Query(_)));
    match &out[4] {
        BookmarkItemRecord::Tombstone(g) => assert_eq!(g.0, "deadbeef____"),
        other => panic!("unexpected {:?}", other),
    }
    let wire: Vec<String> = out.into_iter().map(|r| r.to_payload().id).collect();
    assert!(wire.contains(&"unfiled".to_string()));
}

#[test]
fn unknown_kind_fails_the_batch() {
    let rows = vec![row(1, "bookmarkAAAA", None)];
    assert_eq!(fetch_outgoing_records(&rows, &Vec::new()).err(), Some(Error::UnsupportedKind));
}

#[test]
fn nothing_staged_gives_nothing() {
    assert!(fetch_outgoing_records(&Vec::new(), &Vec::new()).unwrap().is_empty());
    assert!(child_guids(&vec![child(1, "a", 0)], 2).is_empty());
}
