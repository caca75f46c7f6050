use places::bookmarks::BookmarkRootGuids;
use places::error::Error;
use places::incoming::{
    determine_query_url_and_validity, maybe_store_href, maybe_store_url, rewrite_for_pairs,
    validate_href, validate_tag, QueryRewrite,
};
use places::record::{
    guid_to_id, id_to_guid, BookmarkItemRecord, BookmarkRecord, FolderRecord,
    RawBookmarkItemRecord, SeparatorRecord,
};
use places::types::{SyncGuid, SyncedBookmarkValidity};
use places::urls::ParsedUrl;

fn guid(s: &str) -> SyncGuid {
    SyncGuid(s.to_string())
}

fn pairs(p: &[(&str, &str)]) -> Vec<(String, String)> {
    p.iter().map(|(k, v)| (k.to_string(), v.to_string())).collect()
}

#[test]
fn roots_map_both_ways() {
    assert_eq!(id_to_guid("menu".to_string()).0, "menu________");
    assert_eq!(id_to_guid("places".to_string()).0, "root________");
    assert_eq!(id_to_guid("toolbar".to_string()).0, "toolbar_____");
    assert_eq!(id_to_guid("unfiled".to_string()).0, "unfiled_____");
    assert_eq!(id_to_guid("mobile".to_string()).0, "mobile______");
    assert_eq!(id_to_guid("bookmarkAAAA".to_string()).0, "bookmarkAAAA");
    assert_eq!(guid_to_id(&guid("root________")), "places");
    assert_eq!(guid_to_id(&guid("unfiled_____")), "unfiled");
    assert_eq!(guid_to_id(&guid("bookmarkAAAA")), "bookmarkAAAA");
    assert_eq!(BookmarkRootGuids::from_guid(&guid("mobile______")), Some(BookmarkRootGuids::Mobile));
    assert_eq!(BookmarkRootGuids::from_guid(&guid("mobile")), None);
    assert_eq!(BookmarkRootGuids::Toolbar.as_guid().0, "toolbar_____");
    assert_eq!(BookmarkRootGuids::from_sync_record_id("places"), Some(BookmarkRootGuids::Root));
    assert_eq!(BookmarkRootGuids::user_roots().len(), 4);
}

#[test]
fn round_trip_through_wire_fields() {
    let rec = BookmarkItemRecord::Bookmark(BookmarkRecord {
        guid: guid("bookmarkAAAA"),
        parent_guid: Some(guid("unfiled_____")),
        has_dupe: false,
        parent_title: Some("Unfiled".to_string()),
        date_added: Some(1381542355843),
        title: Some("A".to_string()),
        url: Some("http://example.com/a".to_string()),
        keyword: None,
        tags: vec!["t".to_string()],
    });
    let raw = rec.to_payload();
    assert_eq!(raw.id, "bookmarkAAAA");
    assert_eq!(raw.kind.as_deref(), Some("bookmark"));
    assert_eq!(raw.parent_id.as_deref(), Some("unfiled"));
    assert_eq!(raw.has_dupe, Some(false));
    assert_eq!(raw.tags, Some(vec!["t".to_string()]));
    match BookmarkItemRecord::from_payload(raw).unwrap() {
        BookmarkItemRecord::Bookmark(b) => {
            assert_eq!(b.guid.0, "bookmarkAAAA");
            assert_eq!(b.parent_guid.map(|g| g.0), Some("unfiled_____".to_string()));
            assert_eq!(b.date_added, Some(1381542355843));
            assert_eq!(b.url.as_deref(), Some("http://example.com/a"));
            assert_eq!(b.tags, vec!["t".to_string()]);
        }
        other => panic!("unexpected {:?}", other),
    }
}

#[test]
fn folder_and_separator_encode_their_own_fields() {
    let f = BookmarkItemRecord::Folder(FolderRecord {
        guid: guid("menu________"),
        parent_guid: Some(guid("root________")),
        has_dupe: true,
        parent_title: None,
        date_added: None,
        title: Some("Menu".to_string()),
        children: vec![guid("bookmarkCCCC")],
    })
    .to_payload();
    assert_eq!(f.id, "menu");
    assert_eq!(f.kind.as_deref(), Some("folder"));
    assert_eq!(f.parent_id.as_deref(), Some("places"));
    assert_eq!(f.children.map(|c| c.len()), Some(1));
    assert_eq!(f.url, None);
    let s = BookmarkItemRecord::Separator(SeparatorRecord {
        guid: guid("sep1________"),
        parent_guid: None,
        has_dupe: false,
        parent_title: None,
        date_added: None,
        position: Some(3),
    })
    .to_payload();
    assert_eq!(s.kind.as_deref(), Some("separator"));
    assert_eq!(s.position, Some(3));
    assert_eq!(s.title, None);
}

#[test]
fn tombstone_encodes_id_and_deleted() {
    let t = BookmarkItemRecord::Tombstone(guid("toolbar_____")).to_payload();
    assert_eq!(t.id, "toolbar");
    assert_eq!(t.deleted, Some(true));
    assert_eq!(t.kind, None);
}

#[test]
fn decode_defaults_absent_flags_and_lists() {
    let raw = RawBookmarkItemRecord {
        id: "folderAAAAAA".to_string(),
        kind: Some("folder".to_string()),
        deleted: Some(false),
        parent_id: None,
        has_dupe: None,
        parent_title: None,
        date_added: None,
        title: None,
        url: None,
        keyword: None,
        tags: None,
        tag_folder_name: None,
        children: None,
        feed_url: None,
        site_url: None,
        position: None,
    };
    match BookmarkItemRecord::from_payload(raw).unwrap() {
        BookmarkItemRecord::Folder(f) => {
            assert!(!f.has_dupe);
            assert!(f.children.is_empty());
            assert!(f.parent_guid.is_none());
        }
        other => panic!("unexpected {:?}", other),
    }
}

#[test]
fn tags_are_trimmed_and_bounded() {
    assert_eq!(validate_tag(&Some("  a-tag ".to_string())), Some("a-tag"));
    assert_eq!(validate_tag(&Some("   ".to_string())), None);
    assert_eq!(validate_tag(&None), None);
    assert_eq!(validate_tag(&Some("x".repeat(100))).map(|t| t.len()), Some(100));
    assert_eq!(validate_tag(&Some("x".repeat(101))), None);
}

#[test]
fn query_rewrites_by_parameters() {
    assert_eq!(rewrite_for_pairs(&pairs(&[("type", "7")]), true), QueryRewrite::Tag);
    assert_eq!(rewrite_for_pairs(&pairs(&[("type", "7")]), false), QueryRewrite::Discard);
    assert_eq!(rewrite_for_pairs(&pairs(&[("type", "6")]), false), QueryRewrite::Keep);
    assert_eq!(
        rewrite_for_pairs(&pairs(&[("folder", "123")]), false),
        QueryRewrite::AppendExcludeItems
    );
    assert_eq!(
        rewrite_for_pairs(&pairs(&[("folder", "1"), ("excludeItems", "1")]), false),
        QueryRewrite::Keep
    );
    assert_eq!(
        rewrite_for_pairs(&pairs(&[("folder", "1"), ("excludeItems", "0")]), false),
        QueryRewrite::AppendExcludeItems
    );
    assert_eq!(rewrite_for_pairs(&pairs(&[]), true), QueryRewrite::Keep);
}

#[test]
fn query_url_rewrite_keeps_existing_pairs() {
    let u = ParsedUrl { href: "place:folder=1&sort=2".to_string(), path: "folder=1&sort=2".to_string() };
    let (url, validity) = determine_query_url_and_validity(&None, &u);
    assert_eq!(url.as_deref(), Some("place:folder=1&sort=2&excludeItems=1"));
    assert_eq!(validity, SyncedBookmarkValidity::Reupload);
    let u = ParsedUrl { href: "place:type=7".to_string(), path: "type=7".to_string() };
    let (url, validity) = determine_query_url_and_validity(&Some(" news ".to_string()), &u);
    assert_eq!(url.as_deref(), Some("place:tag=news"));
    assert_eq!(validity, SyncedBookmarkValidity::Reupload);
}

#[test]
fn url_storage_errors() {
    assert_eq!(maybe_store_url(None), Err(Error::NoUrl));
    assert_eq!(maybe_store_url(Some("a".repeat(65537))), Err(Error::UrlTooLong));
    assert_eq!(maybe_store_url(Some("a".repeat(65536))).map(|u| u.len()), Ok(65536));
    assert_eq!(maybe_store_href(&Some("foo".to_string())), Err(Error::InvalidUrl));
    assert_eq!(maybe_store_href(&None), Err(Error::NoUrl));
    assert_eq!(
        maybe_store_href(&Some("https://example.com".to_string())).as_deref(),
        Ok("https://example.com/")
    );
    assert_eq!(validate_href(&Some("foo".to_string())), None);
    assert_eq!(validate_href(&Some("http://a.b".to_string())).as_deref(), Some("http://a.b/"));
}

#[test]
fn query_parameters_are_percent_decoded() {
    let u = ParsedUrl {
        href: "place:folder=1&excludeItems=%31".to_string(),
        path: "folder=1&excludeItems=%31".to_string(),
    };
    let (url, validity) = determine_query_url_and_validity(&None, &u);
    assert_eq!(url.as_deref(), Some("place:folder=1&excludeItems=%31"));
    assert_eq!(validity, SyncedBookmarkValidity::Valid);
}
