use crate::error::Error;
use crate::record::{
    BookmarkItemRecord, FolderRecord, QueryRecord, RawBookmarkItemRecord, decode_outcome,
};
use crate::text::{byte_len, opt_text, str_eq, trim_of, trim_str};
use crate::types::{SyncGuid, SyncedBookmarkKind, SyncedBookmarkValidity, opt_guid_view};
use crate::urls::{
    ParsedUrl, decode_form, encode_form, form_encoding_of, form_pairs_of, pairs_view, parse_url,
    parsed_url_of,
};
use vstd::prelude::*;
use vstd::string::{StrSliceExecFns, StringExecFns};

verus! {

/// Longest URL, in bytes, that the store accepts.
pub const URL_LENGTH_MAX: usize = 65536;

/// Longest title, in characters, that the store keeps.
pub const TITLE_LENGTH_MAX: usize = 4096;

/// Longest tag, in bytes, that the store accepts.
pub const TAG_LENGTH_MAX: usize = 100;

/// The tag that a query's `folderName` names: the trimmed text, unless it is
/// empty or longer than `TAG_LENGTH_MAX` bytes.
pub open spec fn valid_tag(tag: Option<Seq<char>>) -> Option<Seq<char>> {
    match tag {
        None => None,
        Some(t) => {
            let t = trim_of(t);
            if byte_len(t) == 0 || byte_len(t) > TAG_LENGTH_MAX {
                None
            } else {
                Some(t)
            }
        },
    }
}

/// Trims a tag and drops it when empty or oversized.
pub fn validate_tag(tag: &Option<String>) -> (r: Option<&str>)
    ensures
        match r {
            Some(t) => valid_tag(opt_text(*tag)) == Some(t@),
            None => valid_tag(opt_text(*tag)).is_none(),
        },
        (opt_text(*tag) matches Some(t) && t.len() == 0) ==> r.is_none(),
{
    match tag {
        None => None,
        Some(t) => {
            let t = trim_str(t.as_str());
            if t.as_bytes().len() == 0 || t.as_bytes().len() > TAG_LENGTH_MAX {
                None
            } else {
                Some(t)
            }
        },
    }
}

/// Whether `pairs` holds the pair `(k, v)`.
pub open spec fn has_pair(pairs: Seq<(Seq<char>, Seq<char>)>, k: Seq<char>, v: Seq<char>) -> bool {
    exists|i: int| 0 <= i < pairs.len() && #[trigger] pairs[i] == (k, v)
}

/// Whether `pairs` holds a pair named `k`.
pub open spec fn has_key(pairs: Seq<(Seq<char>, Seq<char>)>, k: Seq<char>) -> bool {
    exists|i: int| 0 <= i < pairs.len() && (#[trigger] pairs[i]).0 == k
}

/// Looks for a pair named `k`, with value `v` when one is given.
fn find_pair(pairs: &Vec<(String, String)>, k: &str, v: Option<&str>) -> (r: bool)
    ensures
        r == match v {
            Some(v) => has_pair(pairs_view(pairs@), k@, v@),
            None => has_key(pairs_view(pairs@), k@),
        },
{
    let ghost view = pairs_view(pairs@);
    let mut i: usize = 0;
    while i < pairs.len()
        invariant
            i <= pairs.len(),
            view == pairs_view(pairs@),
            view.len() == pairs@.len(),
            forall|j: int|
                0 <= j < i ==> match v {
                    Some(v) => view[j] != (k@, v@),
                    None => view[j].0 != k@,
                },
        decreases pairs.len() - i,
    {
        let (pk, pv) = &pairs[i];
        assert(view[i as int] == (pk@, pv@));
        if str_eq(pk.as_str(), k) {
            match v {
                None => {
                    return true;
                },
                Some(v) => {
                    if str_eq(pv.as_str(), v) {
                        return true;
                    }
                },
            }
        }
        i = i + 1;
    }
    false
}

/// What becomes of a saved query's URL, by the parameters in its path.
#[derive(Debug, Clone, Copy, PartialEq, Eq, Structural)]
pub enum QueryRewrite {
    /// The URL is fine as it is.
    Keep,
    /// The URL lists tag contents: it becomes `place:tag=` and the tag.
    Tag,
    /// The URL lists tag contents but the record has no usable tag.
    Discard,
    /// The URL names a folder of another client: `excludeItems=1` is
    /// appended so that its contents stay hidden.
    AppendExcludeItems,
}

/// The rewrite that the parameters `pairs` call for, given whether the record
/// has a valid tag.
pub open spec fn query_rewrite(pairs: Seq<(Seq<char>, Seq<char>)>, has_tag: bool) -> QueryRewrite {
    if has_pair(pairs, "type"@, "7"@) {
        if has_tag {
            QueryRewrite::Tag
        } else {
            QueryRewrite::Discard
        }
    } else if has_key(pairs, "folder"@) {
        if has_pair(pairs, "excludeItems"@, "1"@) {
            QueryRewrite::Keep
        } else {
            QueryRewrite::AppendExcludeItems
        }
    } else {
        QueryRewrite::Keep
    }
}

/// Decides how a query's URL is rewritten from its decoded parameters.
pub fn rewrite_for_pairs(pairs: &Vec<(String, String)>, has_tag: bool) -> (r: QueryRewrite)
    ensures
        r == query_rewrite(pairs_view(pairs@), has_tag),
{
    if find_pair(pairs, "type", Some("7")) {
        if has_tag {
            QueryRewrite::Tag
        } else {
            QueryRewrite::Discard
        }
    } else if find_pair(pairs, "folder", None) {
        if find_pair(pairs, "excludeItems", Some("1")) {
            QueryRewrite::Keep
        } else {
            QueryRewrite::AppendExcludeItems
        }
    } else {
        QueryRewrite::Keep
    }
}

/// The URL that a query would be stored under before its length is checked,
/// with the validity that the rewrite gives it.
pub open spec fn query_candidate(tag: Option<Seq<char>>, href: Seq<char>, path: Seq<char>) -> (
    Option<Seq<char>>,
    SyncedBookmarkValidity,
) {
    let pairs = form_pairs_of(path);
    match query_rewrite(pairs, valid_tag(tag).is_some()) {
        QueryRewrite::Keep => (Some(href), SyncedBookmarkValidity::Valid),
        QueryRewrite::Discard => (None, SyncedBookmarkValidity::Replace),
        QueryRewrite::Tag => match parsed_url_of("place:tag="@ + valid_tag(tag).unwrap()) {
            Some(u) => (Some(u.0), SyncedBookmarkValidity::Reupload),
            None => (None, SyncedBookmarkValidity::Replace),
        },
        QueryRewrite::AppendExcludeItems => match parsed_url_of(
            "place:"@ + form_encoding_of(pairs.push(("excludeItems"@, "1"@))),
        ) {
            Some(u) => (Some(u.0), SyncedBookmarkValidity::Reupload),
            None => (None, SyncedBookmarkValidity::Replace),
        },
    }
}

/// The outcome of storing a URL: too long or absent URLs are refused.
pub open spec fn store_outcome(url: Option<Seq<char>>) -> Result<Seq<char>, Error> {
    match url {
        None => Err(Error::NoUrl),
        Some(u) => if byte_len(u) > URL_LENGTH_MAX {
            Err(Error::UrlTooLong)
        } else {
            Ok(u)
        },
    }
}

/// The URL and validity a query is stored with, once it has parsed as `href`
/// with path `path`.
pub open spec fn query_outcome(tag: Option<Seq<char>>, href: Seq<char>, path: Seq<char>) -> (
    Option<Seq<char>>,
    SyncedBookmarkValidity,
) {
    let (candidate, validity) = query_candidate(tag, href, path);
    match store_outcome(candidate) {
        Ok(u) => (Some(u), validity),
        Err(_) => (None, SyncedBookmarkValidity::Replace),
    }
}

/// Checks that a URL can be stored: present, and no longer than
/// `URL_LENGTH_MAX` bytes.
pub fn maybe_store_url(url: Option<String>) -> (r: Result<String, Error>)
    ensures
        match r {
            Ok(u) => store_outcome(opt_text(url)) == Ok::<Seq<char>, Error>(u@),
            Err(e) => store_outcome(opt_text(url)) == Err::<Seq<char>, Error>(e),
        },
{
    match url {
        Some(u) => {
            if u.as_str().as_bytes().len() > URL_LENGTH_MAX {
                Err(Error::UrlTooLong)
            } else {
                Ok(u)
            }
        },
        None => Err(Error::NoUrl),
    }
}

fn concat(a: &str, b: &str) -> (r: String)
    ensures
        r@ == a@ + b@,
{
    let mut s = a.to_owned();
    s.append(b);
    s
}

/// Rewrites a saved query's URL by the parameters in its path, and decides
/// its validity.
pub fn determine_query_url_and_validity(tag_folder_name: &Option<String>, url: &ParsedUrl) -> (r: (
    Option<String>,
    SyncedBookmarkValidity,
))
    ensures
        (opt_text(r.0), r.1) == query_outcome(opt_text(*tag_folder_name), url.href@, url.path@),
{
    let pairs = decode_form(url.path.as_str());
    let tag = validate_tag(tag_folder_name);
    let ghost pv = pairs_view(pairs@);
    let rewrite = rewrite_for_pairs(&pairs, tag.is_some());
    let (candidate, validity) = match rewrite {
        QueryRewrite::Keep => (Some(url.href.clone()), SyncedBookmarkValidity::Valid),
        QueryRewrite::Discard => (None, SyncedBookmarkValidity::Replace),
        QueryRewrite::Tag => {
            let t = tag.unwrap();
            match parse_url(concat("place:tag=", t).as_str()) {
                Some(u) => (Some(u.href), SyncedBookmarkValidity::Reupload),
                None => (None, SyncedBookmarkValidity::Replace),
            }
        },
        QueryRewrite::AppendExcludeItems => {
            let mut extended = pairs;
            extended.push(("excludeItems".to_owned(), "1".to_owned()));
            assert(pairs_view(extended@) =~= pv.push(("excludeItems"@, "1"@)));
            let tail = encode_form(&extended);
            match parse_url(concat("place:", tail.as_str()).as_str()) {
                Some(u) => (Some(u.href), SyncedBookmarkValidity::Reupload),
                None => (None, SyncedBookmarkValidity::Replace),
            }
        },
    };
    match maybe_store_url(candidate) {
        Ok(u) => (Some(u), validity),
        Err(_) => (None, SyncedBookmarkValidity::Replace),
    }
}

/// The outcome of storing a bookmark's URL: it must be present, parse, and
/// fit `URL_LENGTH_MAX` bytes once serialised.
pub open spec fn href_outcome(href: Option<Seq<char>>) -> Result<Seq<char>, Error> {
    match href {
        None => Err(Error::NoUrl),
        Some(h) => match parsed_url_of(h) {
            None => Err(Error::InvalidUrl),
            Some(u) => store_outcome(Some(u.0)),
        },
    }
}

/// Parses a bookmark's URL and checks that it can be stored.
pub fn maybe_store_href(href: &Option<String>) -> (r: Result<String, Error>)
    ensures
        match r {
            Ok(u) => href_outcome(opt_text(*href)) == Ok::<Seq<char>, Error>(u@),
            Err(e) => href_outcome(opt_text(*href)) == Err::<Seq<char>, Error>(e),
        },
{
    match href {
        Some(h) => match parse_url(h.as_str()) {
            Some(u) => maybe_store_url(Some(u.href)),
            None => Err(Error::InvalidUrl),
        },
        None => maybe_store_url(None),
    }
}

/// A livemark's feed or site URL as stored: its serialisation when it
/// parses and fits `URL_LENGTH_MAX` bytes; otherwise nothing.
pub open spec fn livemark_href(href: Option<Seq<char>>) -> Option<Seq<char>> {
    match href_outcome(href) {
        Ok(u) => Some(u),
        Err(_) => None,
    }
}

/// Validates a livemark URL, dropping it when invalid. Livemarks are not
/// interned as places.
pub fn validate_href(href: &Option<String>) -> (r: Option<String>)
    ensures
        opt_text(r) == livemark_href(opt_text(*href)),
{
    match maybe_store_href(href) {
        Ok(u) => Some(u),
        Err(_) => None,
    }
}

/// A title as stored: an empty title is no title, and a long one keeps its
/// first `TITLE_LENGTH_MAX` characters.
pub open spec fn normalized_title(t: Option<Seq<char>>) -> Option<Seq<char>> {
    match t {
        None => None,
        Some(s) => if s.len() == 0 {
            None
        } else if s.len() > TITLE_LENGTH_MAX {
            Some(s.subrange(0, TITLE_LENGTH_MAX as int))
        } else {
            Some(s)
        },
    }
}

/// Normalises a title for storage.
pub fn maybe_truncate_title(title: &Option<String>) -> (r: Option<String>)
    ensures
        opt_text(r) == normalized_title(opt_text(*title)),
{
    match title {
        None => None,
        Some(t) => {
            let n = t.as_str().unicode_len();
            if n == 0 {
                None
            } else if n > TITLE_LENGTH_MAX {
                Some(t.as_str().substring_char(0, TITLE_LENGTH_MAX).to_owned())
            } else {
                Some(t.clone())
            }
        },
    }
}

/// One row of the mirror of remote records.
#[derive(Debug, Clone)]
pub struct MirrorRow {
    pub guid: SyncGuid,
    pub parent_guid: Option<SyncGuid>,
    /// Server modification time, in milliseconds.
    pub server_modified: i64,
    pub needs_merge: bool,
    pub is_deleted: bool,
    pub kind: Option<SyncedBookmarkKind>,
    pub date_added: Option<i64>,
    pub title: Option<String>,
    /// The URL whose place the row refers to.
    pub url: Option<String>,
    pub keyword: Option<String>,
    pub feed_url: Option<String>,
    pub site_url: Option<String>,
    pub validity: SyncedBookmarkValidity,
}

/// A mirror row, with text as characters.
pub struct MirrorRowView {
    pub guid: Seq<char>,
    pub parent_guid: Option<Seq<char>>,
    pub server_modified: i64,
    pub needs_merge: bool,
    pub is_deleted: bool,
    pub kind: Option<SyncedBookmarkKind>,
    pub date_added: Option<i64>,
    pub title: Option<Seq<char>>,
    pub url: Option<Seq<char>>,
    pub keyword: Option<Seq<char>>,
    pub feed_url: Option<Seq<char>>,
    pub site_url: Option<Seq<char>>,
    pub validity: SyncedBookmarkValidity,
}

impl View for MirrorRow {
    type V = MirrorRowView;

    open spec fn view(&self) -> MirrorRowView {
        MirrorRowView {
            guid: self.guid@,
            parent_guid: opt_guid_view(self.parent_guid),
            server_modified: self.server_modified,
            needs_merge: self.needs_merge,
            is_deleted: self.is_deleted,
            kind: self.kind,
            date_added: self.date_added,
            title: opt_text(self.title),
            url: opt_text(self.url),
            keyword: opt_text(self.keyword),
            feed_url: opt_text(self.feed_url),
            site_url: opt_text(self.site_url),
            validity: self.validity,
        }
    }
}

/// A folder's claim that `guid` is its child at `position`.
#[derive(Debug, Clone)]
pub struct StructureRow {
    pub guid: SyncGuid,
    pub parent_guid: SyncGuid,
    pub position: usize,
}

/// What one incoming record writes: its mirror row, the structure rows of a
/// folder's children, and the URL to intern as a place, if any.
#[derive(Debug, Clone)]
pub struct IncomingRows {
    pub mirror: MirrorRow,
    pub structure: Vec<StructureRow>,
    pub place_url: Option<String>,
}

/// The mirror row of a live record before its content is known.
pub open spec fn live_row(
    guid: SyncGuid,
    parent_guid: Option<SyncGuid>,
    modified: i64,
    kind: SyncedBookmarkKind,
    date_added: Option<i64>,
) -> MirrorRowView {
    MirrorRowView {
        guid: guid@,
        parent_guid: opt_guid_view(parent_guid),
        server_modified: modified,
        needs_merge: true,
        is_deleted: false,
        kind: Some(kind),
        date_added,
        title: None,
        url: None,
        keyword: None,
        feed_url: None,
        site_url: None,
        validity: SyncedBookmarkValidity::Valid,
    }
}

/// The mirror row that `item`, modified on the server at `modified`, writes.
pub open spec fn mirror_row_for(item: BookmarkItemRecord, modified: i64) -> MirrorRowView {
    match item {
        BookmarkItemRecord::Tombstone(g) => MirrorRowView {
            guid: g@,
            parent_guid: None,
            server_modified: modified,
            needs_merge: true,
            is_deleted: true,
            kind: None,
            date_added: Some(0),
            title: None,
            url: None,
            keyword: None,
            feed_url: None,
            site_url: None,
            validity: SyncedBookmarkValidity::Valid,
        },
        BookmarkItemRecord::Bookmark(b) => {
            let url = href_outcome(opt_text(b.url));
            MirrorRowView {
                title: normalized_title(opt_text(b.title)),
                keyword: opt_text(b.keyword),
                url: match url {
                    Ok(u) => Some(u),
                    Err(_) => None,
                },
                validity: if url is Ok {
                    SyncedBookmarkValidity::Valid
                } else {
                    SyncedBookmarkValidity::Replace
                },
                ..live_row(b.guid, b.parent_guid, modified, SyncedBookmarkKind::Bookmark, b.date_added)
            }
        },
        BookmarkItemRecord::Query(q) => {
            let (url, validity) = query_url_for(q);
            MirrorRowView {
                title: normalized_title(opt_text(q.title)),
                url,
                validity,
                ..live_row(q.guid, q.parent_guid, modified, SyncedBookmarkKind::Query, q.date_added)
            }
        },
        BookmarkItemRecord::Folder(f) => MirrorRowView {
            title: normalized_title(opt_text(f.title)),
            ..live_row(f.guid, f.parent_guid, modified, SyncedBookmarkKind::Folder, f.date_added)
        },
        BookmarkItemRecord::Livemark(l) => {
            let feed = livemark_href(opt_text(l.feed_url));
            MirrorRowView {
                title: normalized_title(opt_text(l.title)),
                feed_url: feed,
                site_url: livemark_href(opt_text(l.site_url)),
                validity: if feed is Some {
                    SyncedBookmarkValidity::Valid
                } else {
                    SyncedBookmarkValidity::Replace
                },
                ..live_row(l.guid, l.parent_guid, modified, SyncedBookmarkKind::Livemark, l.date_added)
            }
        },
        BookmarkItemRecord::Separator(s) => live_row(
            s.guid,
            s.parent_guid,
            modified,
            SyncedBookmarkKind::Separator,
            s.date_added,
        ),
    }
}

/// The URL and validity a query record is stored with: a URL that does not
/// parse makes it unusable.
pub open spec fn query_url_for(q: QueryRecord) -> (Option<Seq<char>>, SyncedBookmarkValidity) {
    match opt_text(q.url) {
        None => (None, SyncedBookmarkValidity::Replace),
        Some(h) => match parsed_url_of(h) {
            None => (None, SyncedBookmarkValidity::Replace),
            Some(u) => query_outcome(opt_text(q.tag_folder_name), u.0, u.1),
        },
    }
}

/// Whether `rows` are the structure rows of folder `parent` with children
/// `children`: one per child, in order, at positions counted from zero.
pub open spec fn structure_of(rows: Seq<StructureRow>, parent: Seq<char>, children: Seq<SyncGuid>) -> bool {
    &&& rows.len() == children.len()
    &&& forall|i: int|
        0 <= i < rows.len() ==> {
            &&& (#[trigger] rows[i]).guid@ == children[i]@
            &&& rows[i].parent_guid@ == parent
            &&& rows[i].position == i
        }
}

/// The structure rows for a folder's children.
pub fn folder_structure(f: &FolderRecord) -> (r: Vec<StructureRow>)
    ensures
        structure_of(r@, f.guid@, f.children@),
{
    let mut rows: Vec<StructureRow> = Vec::new();
    let mut i: usize = 0;
    while i < f.children.len()
        invariant
            i <= f.children@.len(),
            rows@.len() == i,
            forall|j: int|
                0 <= j < i ==> {
                    &&& (#[trigger] rows@[j]).guid@ == f.children@[j]@
                    &&& rows@[j].parent_guid@ == f.guid@
                    &&& rows@[j].position == j
                },
        decreases f.children.len() - i,
    {
        rows.push(
            StructureRow { guid: f.children[i].cloned(), parent_guid: f.guid.cloned(), position: i },
        );
        i = i + 1;
    }
    rows
}

/// The URL, if any, that `item` interns as a place: a bookmark's or query's
/// stored URL. Livemarks are not interned.
pub open spec fn place_url_for(item: BookmarkItemRecord, modified: i64) -> Option<Seq<char>> {
    match item {
        BookmarkItemRecord::Bookmark(_) | BookmarkItemRecord::Query(_) => mirror_row_for(
            item,
            modified,
        ).url,
        _ => None,
    }
}

fn live_mirror_row(
    guid: SyncGuid,
    parent_guid: Option<SyncGuid>,
    modified: i64,
    kind: SyncedBookmarkKind,
    date_added: Option<i64>,
) -> (r: MirrorRow)
    ensures
        r@ == live_row(guid, parent_guid, modified, kind, date_added),
{
    MirrorRow {
        guid,
        parent_guid,
        server_modified: modified,
        needs_merge: true,
        is_deleted: false,
        kind: Some(kind),
        date_added,
        title: None,
        url: None,
        keyword: None,
        feed_url: None,
        site_url: None,
        validity: SyncedBookmarkValidity::Valid,
    }
}

/// The rows that one incoming record writes, with REPLACE semantics on the
/// GUID: the same record ingested again writes the same rows.
pub fn incoming_rows(item: BookmarkItemRecord, modified: i64) -> (r: IncomingRows)
    ensures
        r.mirror@ == mirror_row_for(item, modified),
        opt_text(r.place_url) == place_url_for(item, modified),
        match item {
            BookmarkItemRecord::Folder(f) => structure_of(r.structure@, f.guid@, f.children@),
            _ => r.structure@.len() == 0,
        },
{
    match item {
        BookmarkItemRecord::Tombstone(g) => IncomingRows {
            mirror: MirrorRow {
                guid: g,
                parent_guid: None,
                server_modified: modified,
                needs_merge: true,
                is_deleted: true,
                kind: None,
                date_added: Some(0),
                title: None,
                url: None,
                keyword: None,
                feed_url: None,
                site_url: None,
                validity: SyncedBookmarkValidity::Valid,
            },
            structure: Vec::new(),
            place_url: None,
        },
        BookmarkItemRecord::Bookmark(b) => {
            let title = maybe_truncate_title(&b.title);
            let (url, validity) = match maybe_store_href(&b.url) {
                Ok(u) => (Some(u), SyncedBookmarkValidity::Valid),
                Err(_) => (None, SyncedBookmarkValidity::Replace),
            };
            let place_url = url.clone();
            let mut mirror = live_mirror_row(
                b.guid,
                b.parent_guid,
                modified,
                SyncedBookmarkKind::Bookmark,
                b.date_added,
            );
            mirror.title = title;
            mirror.keyword = b.keyword;
            mirror.url = url;
            mirror.validity = validity;
            IncomingRows { mirror, structure: Vec::new(), place_url }
        },
        BookmarkItemRecord::Query(q) => {
            let title = maybe_truncate_title(&q.title);
            let parsed = match &q.url {
                Some(h) => parse_url(h.as_str()),
                None => None,
            };
            let (url, validity) = match parsed {
                Some(u) => determine_query_url_and_validity(&q.tag_folder_name, &u),
                None => (None, SyncedBookmarkValidity::Replace),
            };
            let place_url = url.clone();
            let mut mirror = live_mirror_row(
                q.guid,
                q.parent_guid,
                modified,
                SyncedBookmarkKind::Query,
                q.date_added,
            );
            mirror.title = title;
            mirror.url = url;
            mirror.validity = validity;
            IncomingRows { mirror, structure: Vec::new(), place_url }
        },
        BookmarkItemRecord::Folder(f) => {
            let title = maybe_truncate_title(&f.title);
            let structure = folder_structure(&f);
            let mut mirror = live_mirror_row(
                f.guid,
                f.parent_guid,
                modified,
                SyncedBookmarkKind::Folder,
                f.date_added,
            );
            mirror.title = title;
            IncomingRows { mirror, structure, place_url: None }
        },
        BookmarkItemRecord::Livemark(l) => {
            let title = maybe_truncate_title(&l.title);
            let feed_url = validate_href(&l.feed_url);
            let site_url = validate_href(&l.site_url);
            let validity = if feed_url.is_some() {
                SyncedBookmarkValidity::Valid
            } else {
                SyncedBookmarkValidity::Replace
            };
            let mut mirror = live_mirror_row(
                l.guid,
                l.parent_guid,
                modified,
                SyncedBookmarkKind::Livemark,
                l.date_added,
            );
            mirror.title = title;
            mirror.feed_url = feed_url;
            mirror.site_url = site_url;
            mirror.validity = validity;
            IncomingRows { mirror, structure: Vec::new(), place_url: None }
        },
        BookmarkItemRecord::Separator(s) => IncomingRows {
            mirror: live_mirror_row(
                s.guid,
                s.parent_guid,
                modified,
                SyncedBookmarkKind::Separator,
                s.date_added,
            ),
            structure: Vec::new(),
            place_url: None,
        },
    }
}

/// Decodes one incoming payload and computes the rows it writes. Only a
/// payload that cannot be decoded fails; content errors are recorded in the
/// row's validity.
pub fn apply_payload(raw: RawBookmarkItemRecord, modified: i64) -> (r: Result<IncomingRows, Error>)
    ensures
        match r {
            Ok(rows) => exists|item: BookmarkItemRecord|
                {
                    &&& #[trigger] item.decoded_from(raw)
                    &&& decode_outcome(raw) == Ok::<Option<SyncedBookmarkKind>, Error>(
                        item.spec_kind(),
                    )
                    &&& rows.mirror@ == mirror_row_for(item, modified)
                    &&& opt_text(rows.place_url) == place_url_for(item, modified)
                    &&& match item {
                        BookmarkItemRecord::Folder(f) => structure_of(
                            rows.structure@,
                            f.guid@,
                            f.children@,
                        ),
                        _ => rows.structure@.len() == 0,
                    }
                },
            Err(e) => decode_outcome(raw) == Err::<Option<SyncedBookmarkKind>, Error>(e),
        },
{
    let item = BookmarkItemRecord::from_payload(raw)?;
    let ghost it = item;
    let rows = incoming_rows(item, modified);
    assert(it.decoded_from(raw));
    Ok(rows)
}

/// Two records decoded from the same payload are the same record.
pub proof fn lemma_decode_deterministic(
    raw: RawBookmarkItemRecord,
    a: BookmarkItemRecord,
    b: BookmarkItemRecord,
)
    requires
        a.decoded_from(raw),
        b.decoded_from(raw),
        decode_outcome(raw) == Ok::<Option<SyncedBookmarkKind>, Error>(a.spec_kind()),
        decode_outcome(raw) == Ok::<Option<SyncedBookmarkKind>, Error>(b.spec_kind()),
    ensures
        a.same_as(b),
{
    match (a, b) {
        (BookmarkItemRecord::Bookmark(x), BookmarkItemRecord::Bookmark(y)) => {
            assert(x.tags@ == y.tags@);
        },
        (BookmarkItemRecord::Folder(x), BookmarkItemRecord::Folder(y)) => {
            assert(x.children@ == y.children@);
        },
        _ => {},
    }
}

/// Ingesting a record again writes the same mirror row, whatever the server
/// time: only `server_modified` differs.
pub proof fn lemma_reingest_same_row(a: BookmarkItemRecord, b: BookmarkItemRecord, m1: i64, m2: i64)
    requires
        a.same_as(b),
    ensures
        mirror_row_for(a, m1) == (MirrorRowView { server_modified: m1, ..mirror_row_for(b, m2) }),
        place_url_for(a, m1) == place_url_for(b, m2),
{
    match (a, b) {
        (BookmarkItemRecord::Tombstone(x), BookmarkItemRecord::Tombstone(y)) => {},
        (BookmarkItemRecord::Bookmark(x), BookmarkItemRecord::Bookmark(y)) => {
            assert(opt_guid_view(x.parent_guid) == opt_guid_view(y.parent_guid));
        },
        (BookmarkItemRecord::Query(x), BookmarkItemRecord::Query(y)) => {
            assert(opt_guid_view(x.parent_guid) == opt_guid_view(y.parent_guid));
        },
        (BookmarkItemRecord::Folder(x), BookmarkItemRecord::Folder(y)) => {
            assert(opt_guid_view(x.parent_guid) == opt_guid_view(y.parent_guid));
        },
        (BookmarkItemRecord::Livemark(x), BookmarkItemRecord::Livemark(y)) => {
            assert(opt_guid_view(x.parent_guid) == opt_guid_view(y.parent_guid));
        },
        (BookmarkItemRecord::Separator(x), BookmarkItemRecord::Separator(y)) => {
            assert(opt_guid_view(x.parent_guid) == opt_guid_view(y.parent_guid));
        },
        _ => {},
    }
}

/// Applying the same payload twice writes the same rows, but for the server
/// time of the mirror row: the URL to intern is the same, and a folder's
/// structure rows are made from the same GUID and children.
pub proof fn lemma_ingest_idempotent(
    raw: RawBookmarkItemRecord,
    a: BookmarkItemRecord,
    b: BookmarkItemRecord,
    m1: i64,
    m2: i64,
)
    requires
        a.decoded_from(raw),
        b.decoded_from(raw),
        decode_outcome(raw) == Ok::<Option<SyncedBookmarkKind>, Error>(a.spec_kind()),
        decode_outcome(raw) == Ok::<Option<SyncedBookmarkKind>, Error>(b.spec_kind()),
    ensures
        mirror_row_for(a, m1) == (MirrorRowView { server_modified: m1, ..mirror_row_for(b, m2) }),
        place_url_for(a, m1) == place_url_for(b, m2),
        match (a, b) {
            (BookmarkItemRecord::Folder(x), BookmarkItemRecord::Folder(y)) => x.guid@ == y.guid@
                && x.children@ == y.children@,
            _ => true,
        },
{
    lemma_decode_deterministic(raw, a, b);
    lemma_reingest_same_row(a, b, m1, m2);
}

/// A record keeps its validity when ingested again with the same content:
/// a valid record is never degraded on re-ingestion.
pub proof fn lemma_validity_stable(a: BookmarkItemRecord, b: BookmarkItemRecord, m1: i64, m2: i64)
    requires
        a.same_as(b),
    ensures
        mirror_row_for(a, m1).validity == mirror_row_for(b, m2).validity,
{
    lemma_reingest_same_row(a, b, m1, m2);
}

} // verus!
