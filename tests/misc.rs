use places::bookmarks::{check_insert_parent, insert_index, BookmarkPosition};
use places::error::Error;
use places::finalize::{push_synced_changes, StagedChange};
use places::schema::{create, init, SchemaAction};
use places::tombstone::MaybeTombstone;
use places::merge_tree::{
    build_local_tree, build_remote_tree, into_tree, local_tree_row, remote_tree_row, LocalRow,
    RemoteRow, StructurePair,
};
use places::tree::{local_tree_item, type_to_kind, Fingerprint};
use places::types::{
    visit_from_primitive, BookmarkType, SyncGuid, SyncedBookmarkKind, SyncedBookmarkValidity,
    Timestamp, VisitTransition,
};
use places::visits::ManyVisitObservations;
use places::observation::{apply_observation, PageCounts, VisitObservation};
use places::origin::Origin;

fn check_reverse() {
    let o = Origin { prefix: "http".to_string(), host: "foo.com".to_string(), frecency: 0 };
    assert_eq!(o.prefix, "http");
    assert_eq!(o.frecency, 0);
    assert_eq!(o.rev_host(), "moc.oof");
}

#[test]
fn schema_test_reverse() {
    check_reverse();
}

#[test]
fn storage_test_reverse() {
    check_reverse();
}

#[test]
fn test_schema() {
    let db = rusqlite::Connection::open_in_memory().expect("opening memory db");
    let version: i64 = db.query_row("PRAGMA user_version", [], |r| r.get(0)).unwrap();
    let exists: i64 = db
        .query_row(
            "SELECT count(*) FROM sqlite_master WHERE type = 'table' AND name = 'tableList'",
            [],
            |r| r.get(0),
        )
        .unwrap();
    assert_eq!(init(version, exists != 0), SchemaAction::Create);
    for sql in create() {
        db.execute_batch(sql).expect("schema statement");
    }
    let version: i64 = db.query_row("PRAGMA user_version", [], |r| r.get(0)).unwrap();
    assert_eq!(init(version, false), SchemaAction::Create);
    assert_eq!(init(0, true), SchemaAction::UpToDate);
    assert_eq!(init(-1, true), SchemaAction::Upgrade(-1));
    assert_eq!(init(3, false), SchemaAction::Future(3));
}

#[test]
fn test_primitive() {
    assert_eq!(Some(VisitTransition::Link), visit_from_primitive(1));
    assert_eq!(None, visit_from_primitive(99));
}

#[test]
fn codes_round_trip() {
    assert_eq!(visit_from_primitive(9), Some(VisitTransition::Reload));
    assert_eq!(VisitTransition::Download.code(), 7);
    assert_eq!(SyncedBookmarkKind::from_u8(2), Some(SyncedBookmarkKind::Query));
    assert_eq!(SyncedBookmarkKind::Separator.as_u8(), 5);
    assert_eq!(SyncedBookmarkKind::from_u8(0), None);
    assert_eq!(SyncedBookmarkValidity::from_u8(3), Some(SyncedBookmarkValidity::Replace));
    assert_eq!(BookmarkType::from_u8(4), None);
}

#[test]
fn tombstones_and_records() {
    let t: MaybeTombstone<u32> = MaybeTombstone::tombstone("aaaaaaaaaaaa".to_string());
    assert!(t.is_tombstone());
    assert_eq!(t.clone().record(), None);
    assert_eq!(t.ok_or("gone"), Err("gone"));
    let r: MaybeTombstone<u32> = MaybeTombstone::Record(105);
    assert!(!r.is_tombstone());
    assert_eq!(r.clone().ok_or("gone"), Ok(105));
    assert_eq!(r.clone().record(), Some(105));
    assert_eq!(r.clone().expect("a record"), 105);
    assert_eq!(r.unwrap(), 105);
}

#[test]
fn visits_are_batched_by_limit() {
    let mut m = ManyVisitObservations::with_limit(3);
    assert_eq!(m.add(vec![1, 2]), None);
    assert_eq!(m.pending(), &vec![1, 2]);
    assert_eq!(m.add(vec![3, 4]), Some(3));
    assert_eq!(m.pending(), &vec![1, 2, 3, 4]);
    assert_eq!(m.flush(), vec![1, 2, 3, 4]);
    let mut all: ManyVisitObservations<i32> = ManyVisitObservations::new();
    assert_eq!(all.add(vec![7]), Some(0));
    assert!(all.pending().is_empty());
}

#[test]
fn insert_position_past_end_is_the_end() {
    assert_eq!(insert_index(BookmarkPosition::Specific(100), 1), 1);
    assert_eq!(insert_index(BookmarkPosition::Specific(0), 1), 0);
    assert_eq!(insert_index(BookmarkPosition::Append, 5), 5);
}

#[test]
fn insert_parent_must_be_a_folder_below_the_root() {
    let root = SyncGuid("root________".to_string());
    let menu = SyncGuid("menu________".to_string());
    assert_eq!(check_insert_parent(&root, Some(BookmarkType::Folder)), Err(Error::InvalidGuid));
    assert_eq!(check_insert_parent(&menu, Some(BookmarkType::Folder)), Ok(()));
    assert_eq!(check_insert_parent(&menu, Some(BookmarkType::Bookmark)), Err(Error::InvalidParent));
    assert_eq!(check_insert_parent(&menu, None), Err(Error::InvalidParent));
}

#[test]
fn local_kinds_and_ages() {
    assert_eq!(type_to_kind(BookmarkType::Bookmark, Some("place:tag=a")), SyncedBookmarkKind::Query);
    assert_eq!(type_to_kind(BookmarkType::Bookmark, Some("http://a/")), SyncedBookmarkKind::Bookmark);
    assert_eq!(type_to_kind(BookmarkType::Bookmark, Some("place")), SyncedBookmarkKind::Bookmark);
    assert_eq!(type_to_kind(BookmarkType::Separator, None), SyncedBookmarkKind::Separator);
    let item = local_tree_item(
        SyncGuid("bookmarkAAAA".to_string()),
        BookmarkType::Folder,
        None,
        Timestamp(5000),
        2,
        Timestamp(1500),
    );
    assert_eq!(item.age, 3500);
    assert!(item.needs_merge);
    assert_eq!(item.kind, SyncedBookmarkKind::Folder);
    let older = local_tree_item(
        SyncGuid("bookmarkAAAA".to_string()),
        BookmarkType::Bookmark,
        None,
        Timestamp(1000),
        0,
        Timestamp(1500),
    );
    assert_eq!(older.age, 0);
    assert!(!older.needs_merge);
    assert_eq!(Timestamp(10).duration_since(Timestamp(4)), Some(6));
}

#[test]
fn reverse_keeps_clusters_together() {
    let o = Origin { prefix: "http".to_string(), host: "e\u{301}x.a".to_string(), frecency: 1 };
    assert_eq!(o.rev_host(), "a.xe\u{301}");
    let empty = Origin { prefix: String::new(), host: String::new(), frecency: 0 };
    assert_eq!(empty.rev_host(), "");
}

fn guid(s: &str) -> SyncGuid {
    SyncGuid(s.to_string())
}

fn remote(g: &str, parent: Option<&str>, kind: u8) -> RemoteRow {
    RemoteRow {
        guid: guid(g),
        parent_guid: parent.map(guid),
        server_modified: 2000,
        kind,
        needs_merge: true,
        validity: 1,
        title: format!("title {}", g),
        url: Some("http://example.com/".to_string()),
        position: Some(0),
        has_local: false,
    }
}

fn local(g: &str, parent: &str, typ: u8) -> LocalRow {
    LocalRow {
        guid: guid(g),
        parent_guid: guid(parent),
        typ,
        url: Some("http://example.com/".to_string()),
        last_modified: Timestamp(5000),
        sync_change_counter: 1,
        title: format!("title {}", g),
        position: 0,
        has_mirror: false,
        sync_status: 1,
    }
}

#[test]
fn remote_tree_holds_every_row() {
    let rows = vec![
        remote("menu________", Some("root________"), 3),
        remote("bookmarkCCCC", Some("menu________"), 1),
    ];
    let structure = vec![StructurePair { guid: guid("bookmarkCCCC"), parent_guid: guid("menu________") }];
    let deleted = vec![guid("bookmarkDDDD")];
    let b = build_remote_tree(&rows, &structure, &deleted, 1000).expect("should build");
    let tree = into_tree(b).expect("should resolve");
    assert_eq!(tree.size(), 3);
    assert!(tree.deletions().contains(&dogear::Guid::from("bookmarkDDDD")));
}

#[test]
fn remote_tree_failures() {
    let rows = vec![remote("bookmarkCCCC", None, 9)];
    assert_eq!(build_remote_tree(&rows, &vec![], &vec![], 0).err(), Some(Error::UnsupportedKind));
    let mut bad = remote("bookmarkCCCC", None, 1);
    bad.validity = 7;
    assert_eq!(build_remote_tree(&vec![bad], &vec![], &vec![], 0).err(), Some(Error::UnsupportedValidity));
    let dup = vec![remote("bookmarkCCCC", None, 1), remote("bookmarkCCCC", None, 1)];
    assert_eq!(build_remote_tree(&dup, &vec![], &vec![], 0).err(), Some(Error::InvalidTree));
    let rows = vec![remote("bookmarkCCCC", None, 1)];
    let structure = vec![StructurePair { guid: guid("bookmarkXXXX"), parent_guid: guid("bookmarkCCCC") }];
    assert_eq!(build_remote_tree(&rows, &structure, &vec![], 0).err(), Some(Error::InvalidTree));
    let mut no_url = remote("bookmarkCCCC", None, 1);
    no_url.url = None;
    assert_eq!(build_remote_tree(&vec![no_url], &vec![], &vec![], 0).err(), Some(Error::NoUrl));
}

#[test]
fn remote_rows_and_fingerprints() {
    let tr = remote_tree_row(&remote("query1______", Some("unfiled_____"), 2), 1500).unwrap();
    assert_eq!(tr.item.kind, SyncedBookmarkKind::Query);
    assert_eq!(tr.item.age, 500);
    assert!(matches!(tr.content, Some(Fingerprint::Bookmark { .. })));
    let mut known = remote("livemark1___", None, 4);
    known.has_local = true;
    assert!(remote_tree_row(&known, 0).unwrap().content.is_none());
    let sep = remote_tree_row(&remote("sep1________", None, 5), 0).unwrap();
    assert!(matches!(sep.content, Some(Fingerprint::Separator { position: 0 })));
    assert_eq!(sep.item.validity, SyncedBookmarkValidity::Valid);
}

#[test]
fn local_tree_needs_parents_first() {
    let rows = vec![
        local("menu________", "root________", 2),
        local("folderAAAAAA", "menu________", 2),
        local("bookmarkAAAA", "folderAAAAAA", 1),
    ];
    let b = build_local_tree(&rows, &vec![guid("bookmarkZZZZ")], Timestamp(0)).expect("should build");
    let tree = into_tree(b).expect("should resolve");
    assert_eq!(tree.size(), 4);
    let out_of_order = vec![
        local("bookmarkAAAA", "folderAAAAAA", 1),
        local("folderAAAAAA", "root________", 2),
    ];
    assert_eq!(build_local_tree(&out_of_order, &vec![], Timestamp(0)).err(), Some(Error::InvalidTree));
    let under_bookmark = vec![
        local("bookmarkAAAA", "root________", 1),
        local("bookmarkBBBB", "bookmarkAAAA", 1),
    ];
    assert_eq!(build_local_tree(&under_bookmark, &vec![], Timestamp(0)).err(), Some(Error::InvalidTree));
}

#[test]
fn local_rows_and_fingerprints() {
    let root_child = local_tree_row(&local("menu________", "root________", 2), Timestamp(0)).unwrap();
    assert!(root_child.content.is_none());
    let new_folder = local_tree_row(&local("folderAAAAAA", "menu________", 2), Timestamp(0)).unwrap();
    assert!(matches!(new_folder.content, Some(Fingerprint::Folder { .. })));
    assert_eq!(new_folder.item.age, 5000);
    assert!(new_folder.item.needs_merge);
    let mut synced = local("folderAAAAAA", "menu________", 2);
    synced.sync_status = 2;
    assert!(local_tree_row(&synced, Timestamp(0)).unwrap().content.is_none());
    let odd = local_tree_row(&local("oddAAAAAAAAA", "menu________", 9), Timestamp(0)).unwrap();
    assert_eq!(odd.item.kind, SyncedBookmarkKind::Separator);
    assert!(odd.content.is_none());
    let mut no_url = local("bookmarkAAAA", "menu________", 1);
    no_url.url = None;
    assert_eq!(local_tree_row(&no_url, Timestamp(0)).err(), Some(Error::NoUrl));
}

#[test]
fn acknowledged_uploads_decrement_by_the_staged_amount() {
    let change = |g: &str, counter: u32, staged: u32| StagedChange {
        guid: SyncGuid(g.to_string()),
        sync_change_counter: counter,
        staged_change_counter: staged,
        sync_status: places::types::SyncStatus::New,
    };
    let mut items = vec![
        change("bookmarkAAAA", 3, 2),
        change("bookmarkBBBB", 1, 1),
        change("unfiled_____", 0, 1),
    ];
    let acked = vec![SyncGuid("bookmarkAAAA".to_string()), SyncGuid("unfiled_____".to_string())];
    push_synced_changes(&mut items, &acked);
    assert_eq!(items[0].sync_change_counter, 1);
    assert_eq!(items[0].sync_status, places::types::SyncStatus::Normal);
    assert_eq!(items[1].sync_change_counter, 1);
    assert_eq!(items[1].sync_status, places::types::SyncStatus::New);
    assert_eq!(items[2].sync_change_counter, 0);
    assert_eq!(items[2].guid.0, "unfiled_____");
}

#[test]
fn observations_update_page_counts() {
    use_observation();
}

fn use_observation() {
    let page = PageCounts::new_page();
    let obs = VisitObservation {
        title: Some("T".to_string()),
        visit_type: Some(VisitTransition::Typed),
        is_hidden: false,
        was_typed: true,
        at: None,
        is_remote: false,
        is_error: false,
    };
    let e = apply_observation(page, &obs, Timestamp(77));
    assert_eq!(e.page.title, "T");
    assert!(!e.page.hidden);
    assert_eq!(e.page.typed, 1);
    assert_eq!(e.page.visit_count_local, 1);
    assert_eq!(e.page.last_visit_date_local, Timestamp(77));
    assert_eq!(e.visit, Some((Timestamp(77), VisitTransition::Typed, false)));
    assert!(e.update_frecency);
    assert_eq!(
        e.columns,
        vec!["title", "hidden", "typed", "visit_count_local", "last_visit_date_local"]
    );
    let remote = VisitObservation {
        title: None,
        visit_type: Some(VisitTransition::Link),
        is_hidden: true,
        was_typed: false,
        at: Some(Timestamp(10)),
        is_remote: true,
        is_error: true,
    };
    let e2 = apply_observation(e.page, &remote, Timestamp(99));
    assert_eq!(e2.page.visit_count_remote, 1);
    assert_eq!(e2.page.last_visit_date_remote, Timestamp(10));
    assert_eq!(e2.page.visit_count_local, 1);
    assert!(!e2.update_frecency);
    assert_eq!(e2.columns, vec!["visit_count_remote", "last_visit_date_remote"]);
    let title_only = VisitObservation {
        title: Some("U".to_string()),
        visit_type: None,
        is_hidden: false,
        was_typed: false,
        at: None,
        is_remote: false,
        is_error: false,
    };
    let e3 = apply_observation(e2.page, &title_only, Timestamp(0));
    assert_eq!(e3.columns, vec!["title"]);
    assert!(e3.visit.is_none());
    assert_eq!(e3.page.visit_count_remote, 1);
}
