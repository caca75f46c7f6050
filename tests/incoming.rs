use places::incoming::{apply_payload, IncomingRows};
use places::record::RawBookmarkItemRecord;
use places::types::{SyncedBookmarkKind, SyncedBookmarkValidity};

fn raw(id: &str) -> RawBookmarkItemRecord {
    RawBookmarkItemRecord {
        id: id.to_string(),
        kind: None,
        deleted: None,
        parent_id: None,
        has_dupe: None,
        parent_title: None,
        date_added: None,
        title: None,
        url: None,
        keyword: None,
        tags: None,
        tag_folder_name: None,
        children: None,
        feed_url: None,
        site_url: None,
        position: None,
    }
}

fn typed(id: &str, kind: &str) -> RawBookmarkItemRecord {
    let mut r = raw(id);
    r.kind = Some(kind.to_string());
    r.parent_id = Some("unfiled".to_string());
    r
}

fn apply(r: RawBookmarkItemRecord) -> IncomingRows {
    apply_payload(r, 0).expect("Should apply incoming and stage outgoing records")
}

fn check_tombstone() {
    let mut r = raw("deadbeef____");
    r.deleted = Some(true);
    let rows = apply(r);
    assert_eq!(rows.mirror.guid.0, "deadbeef____");
    assert!(rows.mirror.is_deleted);
    assert!(rows.mirror.needs_merge);
    assert_eq!(rows.mirror.validity, SyncedBookmarkValidity::Valid);
    assert_eq!(rows.mirror.kind, None);
    assert!(rows.mirror.parent_guid.is_none());
    assert!(rows.mirror.title.is_none());
    assert!(rows.mirror.url.is_none());
}

fn query(url: Option<&str>, folder_name: Option<&str>) -> IncomingRows {
    let mut r = typed("query1______", "query");
    r.url = url.map(|u| u.to_string());
    r.tag_folder_name = folder_name.map(|f| f.to_string());
    apply(r)
}

fn check_query(rows: &IncomingRows, validity: SyncedBookmarkValidity, url: Option<&str>) {
    assert_eq!(rows.mirror.kind, Some(SyncedBookmarkKind::Query));
    assert_eq!(rows.mirror.validity, validity);
    assert_eq!(rows.mirror.url.as_deref(), url);
    assert_eq!(rows.place_url.as_deref(), url);
}

fn check_query_cases() {
    let mut r = typed("query1______", "query");
    r.parent_title = Some("Unfiled Bookmarks".to_string());
    r.date_added = Some(1381542355843);
    r.title = Some("Some query".to_string());
    r.url = Some("place:tag=foo".to_string());
    let rows = apply(r);
    check_query(&rows, SyncedBookmarkValidity::Valid, Some("place:tag=foo"));
    assert_eq!(rows.mirror.parent_guid.as_ref().map(|g| g.0.as_str()), Some("unfiled_____"));
    assert_eq!(rows.mirror.title.as_deref(), Some("Some query"));
    assert_eq!(rows.mirror.date_added, Some(1381542355843));

    let rows = query(Some("place:type=7"), Some("a-folder-name"));
    check_query(&rows, SyncedBookmarkValidity::Reupload, Some("place:tag=a-folder-name"));

    let rows = query(Some("place:type=7"), Some(""));
    check_query(&rows, SyncedBookmarkValidity::Replace, None);

    let rows = query(Some("place:folder=123"), None);
    check_query(&rows, SyncedBookmarkValidity::Reupload, Some("place:folder=123&excludeItems=1"));

    let rows = query(Some("place:folder=123&excludeItems=1"), None);
    check_query(&rows, SyncedBookmarkValidity::Valid, Some("place:folder=123&excludeItems=1"));

    let rows = query(Some("foo"), None);
    check_query(&rows, SyncedBookmarkValidity::Replace, None);

    let rows = query(None, None);
    check_query(&rows, SyncedBookmarkValidity::Replace, None);
}

fn check_sep() {
    let mut r = typed("sep1________", "separator");
    r.parent_title = Some("Unfiled Bookmarks".to_string());
    let rows = apply(r);
    assert_eq!(rows.mirror.validity, SyncedBookmarkValidity::Valid);
    assert_eq!(rows.mirror.kind, Some(SyncedBookmarkKind::Separator));
    assert_eq!(rows.mirror.parent_guid.as_ref().map(|g| g.0.as_str()), Some("unfiled_____"));
    assert!(rows.mirror.needs_merge);
}

fn livemark(feed: Option<&str>, site: Option<&str>) -> IncomingRows {
    let mut r = typed("livemark1___", "livemark");
    r.parent_title = Some("Unfiled Bookmarks".to_string());
    r.feed_url = feed.map(|u| u.to_string());
    r.site_url = site.map(|u| u.to_string());
    apply(r)
}

fn check_livemark_cases() {
    let rows = livemark(None, None);
    assert_eq!(rows.mirror.validity, SyncedBookmarkValidity::Replace);
    assert_eq!(rows.mirror.kind, Some(SyncedBookmarkKind::Livemark));
    assert_eq!(rows.mirror.parent_guid.as_ref().map(|g| g.0.as_str()), Some("unfiled_____"));
    assert!(rows.mirror.needs_merge);
    assert_eq!(rows.mirror.feed_url, None);
    assert_eq!(rows.mirror.site_url, None);

    let rows = livemark(Some("http://example.com"), Some("foo"));
    assert_eq!(rows.mirror.validity, SyncedBookmarkValidity::Valid);
    assert_eq!(rows.mirror.feed_url.as_deref(), Some("http://example.com/"));
    assert_eq!(rows.mirror.site_url, None);
    assert_eq!(rows.place_url, None);

    let rows = livemark(Some("http://example.com"), Some("http://example.com/something"));
    assert_eq!(rows.mirror.validity, SyncedBookmarkValidity::Valid);
    assert_eq!(rows.mirror.feed_url.as_deref(), Some("http://example.com/"));
    assert_eq!(rows.mirror.site_url.as_deref(), Some("http://example.com/something"));
}

#[test]
fn incoming_test_apply_tombstone() {
    check_tombstone();
}

#[test]
fn incoming_test_apply_query() {
    check_query_cases();
}

#[test]
fn incoming_test_apply_sep() {
    check_sep();
}

#[test]
fn incoming_test_apply_livemark() {
    check_livemark_cases();
}

#[test]
fn store_test_apply_tombstone() {
    check_tombstone();
}

#[test]
fn store_test_apply_query() {
    check_query_cases();
}

#[test]
fn store_test_apply_sep() {
    check_sep();
}

#[test]
fn store_test_apply_livemark() {
    check_livemark_cases();
}

#[test]
fn bookmark_with_valid_url_is_interned() {
    let mut r = typed("bookmarkAAAA", "bookmark");
    r.url = Some("http://example.com/a".to_string());
    r.title = Some(String::new());
    r.keyword = Some("kw".to_string());
    let rows = apply(r);
    assert_eq!(rows.mirror.kind, Some(SyncedBookmarkKind::Bookmark));
    assert_eq!(rows.mirror.validity, SyncedBookmarkValidity::Valid);
    assert_eq!(rows.mirror.url.as_deref(), Some("http://example.com/a"));
    assert_eq!(rows.place_url.as_deref(), Some("http://example.com/a"));
    assert_eq!(rows.mirror.title, None);
    assert_eq!(rows.mirror.keyword.as_deref(), Some("kw"));
}

#[test]
fn bookmark_url_is_serialised_by_the_parser() {
    let mut r = typed("bookmarkAAAA", "bookmark");
    r.url = Some("HTTP://Example.com".to_string());
    let rows = apply(r);
    assert_eq!(rows.mirror.url.as_deref(), Some("http://example.com/"));
}

#[test]
fn bookmark_with_bad_or_missing_url_is_replaced() {
    let mut r = typed("bookmarkAAAA", "bookmark");
    r.url = Some("not a url".to_string());
    let rows = apply(r);
    assert_eq!(rows.mirror.validity, SyncedBookmarkValidity::Replace);
    assert_eq!(rows.mirror.url, None);
    assert_eq!(rows.place_url, None);

    let rows = apply(typed("bookmarkAAAA", "bookmark"));
    assert_eq!(rows.mirror.validity, SyncedBookmarkValidity::Replace);
}

#[test]
fn bookmark_with_too_long_url_is_replaced() {
    let mut r = typed("bookmarkAAAA", "bookmark");
    r.url = Some(format!("http://example.com/{}", "a".repeat(65536)));
    let rows = apply(r);
    assert_eq!(rows.mirror.validity, SyncedBookmarkValidity::Replace);
    assert_eq!(rows.mirror.url, None);
}

#[test]
fn folder_children_become_structure_rows() {
    let mut r = typed("folderAAAAAA", "folder");
    r.parent_id = Some("menu".to_string());
    r.title = Some("F".to_string());
    r.children = Some(vec![
        places::types::SyncGuid("bookmarkCCCC".to_string()),
        places::types::SyncGuid("bookmarkDDDD".to_string()),
    ]);
    let rows = apply(r);
    assert_eq!(rows.mirror.kind, Some(SyncedBookmarkKind::Folder));
    assert_eq!(rows.mirror.parent_guid.as_ref().map(|g| g.0.as_str()), Some("menu________"));
    assert_eq!(rows.structure.len(), 2);
    assert_eq!(rows.structure[0].guid.0, "bookmarkCCCC");
    assert_eq!(rows.structure[0].parent_guid.0, "folderAAAAAA");
    assert_eq!(rows.structure[0].position, 0);
    assert_eq!(rows.structure[1].guid.0, "bookmarkDDDD");
    assert_eq!(rows.structure[1].position, 1);
}

#[test]
fn same_payload_twice_gives_same_rows() {
    let mut r = typed("bookmarkAAAA", "bookmark");
    r.url = Some("http://example.com/a".to_string());
    r.title = Some("A".to_string());
    let a = apply(r.clone());
    let b = apply(r);
    assert_eq!(format!("{:?}", a), format!("{:?}", b));
}

#[test]
fn unknown_kind_and_missing_kind_fail() {
    let r = typed("x___________", "microsummary");
    assert_eq!(apply_payload(r, 0).err(), Some(places::error::Error::UnsupportedKind));
    let r = raw("x___________");
    assert_eq!(apply_payload(r, 0).err(), Some(places::error::Error::MalformedPayload));
}

#[test]
fn long_titles_are_truncated() {
    let long = "é".repeat(5000);
    let t = places::incoming::maybe_truncate_title(&Some(long));
    assert_eq!(t.map(|s| s.chars().count()), Some(4096));
    assert_eq!(places::incoming::maybe_truncate_title(&Some(String::new())), None);
    assert_eq!(places::incoming::maybe_truncate_title(&None), None);
    assert_eq!(
        places::incoming::maybe_truncate_title(&Some("abc".to_string())).as_deref(),
        Some("abc")
    );
}
