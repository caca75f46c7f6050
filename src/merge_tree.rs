use crate::bookmarks::{root_with_guid, BookmarkRootGuids};
use crate::error::Error;
use crate::tree::{
    Fingerprint, TreeItem, age_of, content_is, content_kind, content_of_shape, content_ok,
    kind_of_local, local_tree_item, remote_tree_item, type_to_kind,
};
use crate::types::{
    BookmarkType, SyncGuid, SyncStatus, SyncedBookmarkKind, SyncedBookmarkValidity, Timestamp,
    opt_guid_view,
};
use vstd::prelude::*;

verus! {

#[verifier::external_type_specification]
#[verifier::external_body]
pub struct ExDogearKind(dogear::Kind);

#[verifier::external_type_specification]
#[verifier::external_body]
pub struct ExDogearValidity(dogear::Validity);

#[verifier::external_type_specification]
#[verifier::external_body]
pub struct ExDogearContent(dogear::Content);

#[verifier::external_type_specification]
#[verifier::external_body]
pub struct ExDogearTree(dogear::Tree);

/// A tree under construction for the merger, held by dogear's builder.
#[verifier::external_body]
pub struct TreeBuilder {
    inner: dogear::Builder,
}

/// The items in the builder, by GUID: kind, age, whether it needs merging,
/// and validity.
pub uninterp spec fn tree_items(b: TreeBuilder) -> Map<
    Seq<char>,
    (SyncedBookmarkKind, i64, bool, SyncedBookmarkValidity),
>;

/// The (child, parent) pairs recorded from the child's own parent GUID.
pub uninterp spec fn tree_parent_claims(b: TreeBuilder) -> Set<(Seq<char>, Seq<char>)>;

/// The (child, parent) pairs recorded from the parent's list of children.
pub uninterp spec fn tree_child_claims(b: TreeBuilder) -> Set<(Seq<char>, Seq<char>)>;

/// The GUIDs recorded as deleted.
pub uninterp spec fn tree_deletions(b: TreeBuilder) -> Set<Seq<char>>;

/// The GUID of the synthetic root.
pub open spec fn root_guid() -> Seq<char> {
    BookmarkRootGuids::Root.spec_guid()
}

/// What the builder holds for the root: a folder, with defaults.
pub open spec fn root_info() -> (SyncedBookmarkKind, i64, bool, SyncedBookmarkValidity) {
    (SyncedBookmarkKind::Folder, 0, false, SyncedBookmarkValidity::Valid)
}

pub open spec fn info_of(i: TreeItem) -> (SyncedBookmarkKind, i64, bool, SyncedBookmarkValidity) {
    (i.kind, i.age, i.needs_merge, i.validity)
}

/// Nothing but the builder's items changed.
pub open spec fn same_claims(a: TreeBuilder, b: TreeBuilder) -> bool {
    &&& tree_parent_claims(a) == tree_parent_claims(b)
    &&& tree_child_claims(a) == tree_child_claims(b)
    &&& tree_deletions(a) == tree_deletions(b)
}

/// Relies on dogear's `Tree::with_root` and `Item::new`: a builder holding
/// the root folder alone.
#[verifier::external_body]
pub(crate) fn builder_with_root() -> (r: TreeBuilder)
    ensures
        tree_items(r) == map![root_guid() => root_info()],
        tree_parent_claims(r) == Set::<(Seq<char>, Seq<char>)>::empty(),
        tree_child_claims(r) == Set::<(Seq<char>, Seq<char>)>::empty(),
        tree_deletions(r) == Set::<Seq<char>>::empty(),
{
    TreeBuilder { inner: dogear::Tree::with_root(dogear::Item::new(dogear::ROOT_GUID, dogear::Kind::Folder)) }
}

/// Relies on dogear's `Kind`: one variant for each record kind.
#[verifier::external_body]
fn dogear_kind(k: SyncedBookmarkKind) -> dogear::Kind {
    match k {
        SyncedBookmarkKind::Bookmark => dogear::Kind::Bookmark,
        SyncedBookmarkKind::Query => dogear::Kind::Query,
        SyncedBookmarkKind::Folder => dogear::Kind::Folder,
        SyncedBookmarkKind::Livemark => dogear::Kind::Livemark,
        SyncedBookmarkKind::Separator => dogear::Kind::Separator,
    }
}

/// Relies on dogear's `Validity`: one variant for each validity.
#[verifier::external_body]
fn dogear_validity(v: SyncedBookmarkValidity) -> dogear::Validity {
    match v {
        SyncedBookmarkValidity::Valid => dogear::Validity::Valid,
        SyncedBookmarkValidity::Reupload => dogear::Validity::Reupload,
        SyncedBookmarkValidity::Replace => dogear::Validity::Replace,
    }
}

/// Relies on dogear's `Fingerprint`, which keeps no separator position.
#[verifier::external_body]
fn dogear_content(c: Fingerprint) -> dogear::Content {
    match c {
        Fingerprint::Bookmark { title, url_href } => dogear::Content::Bookmark { title, url_href },
        Fingerprint::Folder { title } => dogear::Content::Folder { title },
        Fingerprint::Separator { .. } => dogear::Content::Separator,
    }
}

/// Relies on dogear's `Builder::item`, which refuses a GUID already present
/// and otherwise adds the item, and `ItemBuilder::content`.
#[verifier::external_body]
pub(crate) fn builder_item(b: &mut TreeBuilder, item: &TreeItem, content: Option<Fingerprint>) -> (r: bool)
    ensures
        r == !tree_items(*old(b)).dom().contains(item.guid@),
        r ==> tree_items(*final(b)) == tree_items(*old(b)).insert(item.guid@, info_of(*item))
            && same_claims(*final(b), *old(b)),
        !r ==> *final(b) == *old(b),
{
    let mut i = dogear::Item::new(dogear::Guid::from(item.guid.as_str()), dogear_kind(item.kind));
    i.age = item.age;
    i.needs_merge = item.needs_merge;
    i.validity = dogear_validity(item.validity);
    match b.inner.item(i) {
        Ok(mut ib) => {
            if let Some(c) = content {
                ib.content(dogear_content(c));
            }
            true
        },
        Err(_) => false,
    }
}

/// Relies on dogear's `ParentBuilder::by_parent_guid`: it records the claim
/// for an item present in the builder, other than the root.
#[verifier::external_body]
pub(crate) fn builder_by_parent_guid(b: &mut TreeBuilder, child: &SyncGuid, parent: &SyncGuid) -> (r: bool)
    ensures
        r == (tree_items(*old(b)).dom().contains(child@) && child@ != root_guid()),
        r ==> tree_parent_claims(*final(b)) == tree_parent_claims(*old(b)).insert((child@, parent@))
            && tree_items(*final(b)) == tree_items(*old(b))
            && tree_child_claims(*final(b)) == tree_child_claims(*old(b))
            && tree_deletions(*final(b)) == tree_deletions(*old(b)),
        !r ==> *final(b) == *old(b),
{
    let child = dogear::Guid::from(child.as_str());
    b.inner.parent_for(&child).by_parent_guid(dogear::Guid::from(parent.as_str())).is_ok()
}

/// Whether `parent` is a folder in `items`.
pub open spec fn is_folder_in(
    items: Map<Seq<char>, (SyncedBookmarkKind, i64, bool, SyncedBookmarkValidity)>,
    parent: Seq<char>,
) -> bool {
    items.dom().contains(parent) && items[parent].0 == SyncedBookmarkKind::Folder
}

/// Relies on dogear's `ParentBuilder::by_children`: the parent must be a
/// folder in the builder, and the child may not be the root.
#[verifier::external_body]
pub(crate) fn builder_by_children(b: &mut TreeBuilder, child: &SyncGuid, parent: &SyncGuid) -> (r: bool)
    ensures
        r == (is_folder_in(tree_items(*old(b)), parent@) && child@ != root_guid()),
        r ==> tree_child_claims(*final(b)) == tree_child_claims(*old(b)).insert((child@, parent@))
            && tree_items(*final(b)) == tree_items(*old(b))
            && tree_parent_claims(*final(b)) == tree_parent_claims(*old(b))
            && tree_deletions(*final(b)) == tree_deletions(*old(b)),
        !r ==> *final(b) == *old(b),
{
    let child = dogear::Guid::from(child.as_str());
    b.inner.parent_for(&child).by_children(&dogear::Guid::from(parent.as_str())).is_ok()
}

/// Relies on dogear's `ParentBuilder::by_structure`: for an item present in
/// the builder, it records both claims; the parent must be a folder in the
/// builder, and the child may not be the root.
#[verifier::external_body]
pub(crate) fn builder_by_structure(b: &mut TreeBuilder, child: &SyncGuid, parent: &SyncGuid) -> (r: bool)
    ensures
        tree_items(*old(b)).dom().contains(child@) ==> r == (is_folder_in(
            tree_items(*old(b)),
            parent@,
        ) && child@ != root_guid()),
        r && tree_items(*old(b)).dom().contains(child@) ==> tree_child_claims(*final(b))
            == tree_child_claims(*old(b)).insert((child@, parent@)) && tree_parent_claims(
            *final(b),
        ) == tree_parent_claims(*old(b)).insert((child@, parent@)) && tree_items(*final(b))
            == tree_items(*old(b)) && tree_deletions(*final(b)) == tree_deletions(*old(b)),
        !r ==> *final(b) == *old(b),
{
    let child = dogear::Guid::from(child.as_str());
    b.inner.parent_for(&child).by_structure(&dogear::Guid::from(parent.as_str())).is_ok()
}

/// Relies on dogear's `Builder::deletion`, which notes a tombstone.
#[verifier::external_body]
pub(crate) fn builder_deletion(b: &mut TreeBuilder, guid: &SyncGuid)
    ensures
        tree_deletions(*final(b)) == tree_deletions(*old(b)).insert(guid@),
        tree_items(*final(b)) == tree_items(*old(b)),
        tree_parent_claims(*final(b)) == tree_parent_claims(*old(b)),
        tree_child_claims(*final(b)) == tree_child_claims(*old(b)),
{
    b.inner.deletion(dogear::Guid::from(guid.as_str()));
}

/// Relies on dogear's `Builder::into_tree`, which resolves the recorded
/// claims into a tree for the merger.
#[verifier::external_body]
pub fn into_tree(b: TreeBuilder) -> Result<dogear::Tree, Error> {
    match b.inner.into_tree() {
        Ok(t) => Ok(t),
        Err(_) => Err(Error::InvalidTree),
    }
}

/// An item of a tree to build, as characters and values.
pub struct TreeKey {
    pub guid: Seq<char>,
    pub info: (SyncedBookmarkKind, i64, bool, SyncedBookmarkValidity),
    pub parent: Option<Seq<char>>,
}

/// An item of a tree to build, with its fingerprint and claimed parent.
#[derive(Debug, Clone)]
pub struct TreeRow {
    pub item: TreeItem,
    pub content: Option<Fingerprint>,
    pub parent: Option<SyncGuid>,
}

impl TreeRow {
    pub open spec fn key(self) -> TreeKey {
        TreeKey { guid: self.item.guid@, info: info_of(self.item), parent: opt_guid_view(self.parent) }
    }
}

/// The keys of a list of tree rows.
pub open spec fn keys_of(rows: Seq<TreeRow>) -> Seq<TreeKey> {
    rows.map_values(|r: TreeRow| r.key())
}

/// The items of a tree built from `keys` in order, under the root.
pub open spec fn items_of(keys: Seq<TreeKey>) -> Map<
    Seq<char>,
    (SyncedBookmarkKind, i64, bool, SyncedBookmarkValidity),
>
    decreases keys.len(),
{
    if keys.len() == 0 {
        map![root_guid() => root_info()]
    } else {
        items_of(keys.drop_last()).insert(keys.last().guid, keys.last().info)
    }
}

/// The (child, parent) pairs that `keys` claim.
pub open spec fn claims_of(keys: Seq<TreeKey>) -> Set<(Seq<char>, Seq<char>)>
    decreases keys.len(),
{
    if keys.len() == 0 {
        Set::empty()
    } else {
        match keys.last().parent {
            Some(p) => claims_of(keys.drop_last()).insert((keys.last().guid, p)),
            None => claims_of(keys.drop_last()),
        }
    }
}

/// Each key's GUID is new to the tree when it is added.
pub open spec fn keys_fresh(keys: Seq<TreeKey>) -> bool
    decreases keys.len(),
{
    keys.len() == 0 || (keys_fresh(keys.drop_last()) && !items_of(keys.drop_last()).dom().contains(
        keys.last().guid,
    ))
}

/// Each key is new, and its parent is a folder already in the tree once the
/// key is added: parents come before their children.
pub open spec fn keys_nested(keys: Seq<TreeKey>) -> bool
    decreases keys.len(),
{
    keys.len() == 0 || ({
        let prev = keys.drop_last();
        &&& keys_nested(prev)
        &&& !items_of(prev).dom().contains(keys.last().guid)
        &&& keys.last().parent matches Some(p) && is_folder_in(items_of(keys), p)
    })
}

/// The GUIDs of a list.
pub open spec fn guid_set(s: Seq<SyncGuid>) -> Set<Seq<char>>
    decreases s.len(),
{
    if s.len() == 0 {
        Set::empty()
    } else {
        guid_set(s.drop_last()).insert(s.last()@)
    }
}

/// A folder's claim that `guid` is among its children.
#[derive(Debug, Clone)]
pub struct StructurePair {
    pub guid: SyncGuid,
    pub parent_guid: SyncGuid,
}

/// The (child, parent) pairs of a list of structure rows.
pub open spec fn pair_set(s: Seq<StructurePair>) -> Set<(Seq<char>, Seq<char>)>
    decreases s.len(),
{
    if s.len() == 0 {
        Set::empty()
    } else {
        pair_set(s.drop_last()).insert((s.last().guid@, s.last().parent_guid@))
    }
}

proof fn lemma_items_have_root(keys: Seq<TreeKey>)
    ensures
        items_of(keys).dom().contains(root_guid()),
    decreases keys.len(),
{
    if keys.len() > 0 {
        lemma_items_have_root(keys.drop_last());
    }
}

proof fn lemma_fresh_prefix(keys: Seq<TreeKey>, n: int)
    requires
        keys_fresh(keys),
        0 <= n <= keys.len(),
    ensures
        keys_fresh(keys.take(n)),
    decreases keys.len(),
{
    if n == keys.len() {
        assert(keys.take(n) =~= keys);
    } else {
        assert(keys.drop_last().take(n) =~= keys.take(n));
        lemma_fresh_prefix(keys.drop_last(), n);
    }
}

proof fn lemma_nested_prefix(keys: Seq<TreeKey>, n: int)
    requires
        keys_nested(keys),
        0 <= n <= keys.len(),
    ensures
        keys_nested(keys.take(n)),
    decreases keys.len(),
{
    if n == keys.len() {
        assert(keys.take(n) =~= keys);
    } else {
        assert(keys.drop_last().take(n) =~= keys.take(n));
        lemma_nested_prefix(keys.drop_last(), n);
    }
}

/// A tree built from keys whose GUIDs are each new holds every key: each
/// GUID resolves to the item it was added with, and the tree holds nothing
/// but the root and those GUIDs.
pub proof fn lemma_tree_complete(keys: Seq<TreeKey>)
    requires
        keys_fresh(keys),
    ensures
        forall|i: int|
            0 <= i < keys.len() ==> items_of(keys).dom().contains(#[trigger] keys[i].guid)
                && items_of(keys)[keys[i].guid] == keys[i].info,
        forall|g: Seq<char>|
            #[trigger] items_of(keys).dom().contains(g) <==> (g == root_guid() || exists|i: int|
                0 <= i < keys.len() && keys[i].guid == g),
    decreases keys.len(),
{
    if keys.len() > 0 {
        let prev = keys.drop_last();
        lemma_tree_complete(prev);
        assert forall|i: int| 0 <= i < keys.len() implies items_of(keys).dom().contains(
            #[trigger] keys[i].guid,
        ) && items_of(keys)[keys[i].guid] == keys[i].info by {
            if i < keys.len() - 1 {
                assert(prev[i] == keys[i]);
                assert(items_of(prev).dom().contains(prev[i].guid));
            }
        }
        assert forall|g: Seq<char>| #[trigger] items_of(keys).dom().contains(g) implies (g
            == root_guid() || exists|i: int| 0 <= i < keys.len() && keys[i].guid == g) by {
            if g != keys.last().guid {
                let j = choose|j: int| 0 <= j < prev.len() && prev[j].guid == g;
                if g != root_guid() {
                    assert(keys[j] == prev[j]);
                }
            } else {
                assert(keys[keys.len() - 1].guid == g);
            }
        }
        assert forall|g: Seq<char>|
            (g == root_guid() || exists|i: int| 0 <= i < keys.len() && keys[i].guid == g) implies #[trigger] items_of(keys).dom().contains(g) by {
            if g != root_guid() && g != keys.last().guid {
                let i = choose|i: int| 0 <= i < keys.len() && keys[i].guid == g;
                assert(prev[i] == keys[i]);
            }
        }
    } else {
        assert forall|g: Seq<char>| #[trigger] items_of(keys).dom().contains(g) <==> (g
            == root_guid() || exists|i: int| 0 <= i < keys.len() && keys[i].guid == g) by {}
    }
}

/// Adds each row and records its parent claim, for rows whose parents may
/// come later or not at all.
fn add_claimed_rows(b: &mut TreeBuilder, rows: &Vec<TreeRow>) -> (r: bool)
    requires
        tree_items(*old(b)) == items_of(Seq::empty()),
        tree_parent_claims(*old(b)) == Set::<(Seq<char>, Seq<char>)>::empty(),
    ensures
        r == keys_fresh(keys_of(rows@)),
        r ==> tree_items(*final(b)) == items_of(keys_of(rows@)) && tree_parent_claims(*final(b))
            == claims_of(keys_of(rows@)),
        tree_child_claims(*final(b)) == tree_child_claims(*old(b)),
        tree_deletions(*final(b)) == tree_deletions(*old(b)),
{
    let ghost keys = keys_of(rows@);
    let mut i: usize = 0;
    while i < rows.len()
        invariant
            i <= rows@.len(),
            keys == keys_of(rows@),
            keys.len() == rows@.len(),
            keys_fresh(keys.take(i as int)),
            tree_items(*b) == items_of(keys.take(i as int)),
            tree_parent_claims(*b) == claims_of(keys.take(i as int)),
            tree_child_claims(*b) == tree_child_claims(*old(b)),
            tree_deletions(*b) == tree_deletions(*old(b)),
        decreases rows.len() - i,
    {
        let ghost prev = keys.take(i as int);
        assert(keys.take(i + 1).drop_last() =~= prev);
        assert(keys.take(i + 1).last() == rows@[i as int].key());
        let row = &rows[i];
        proof {
            lemma_items_have_root(prev);
        }
        if !builder_item(b, &row.item, row.content.clone()) {
            proof {
                if keys_fresh(keys) {
                    lemma_fresh_prefix(keys, i + 1);
                }
            }
            return false;
        }
        match &row.parent {
            Some(p) => {
                let ok = builder_by_parent_guid(b, &row.item.guid, p);
                assert(ok);
            },
            None => {},
        }
        i = i + 1;
    }
    assert(keys.take(rows@.len() as int) =~= keys);
    true
}

/// Adds each row under its parent, which must be a folder added before it.
fn add_nested_rows(b: &mut TreeBuilder, rows: &Vec<TreeRow>) -> (r: bool)
    requires
        tree_items(*old(b)) == items_of(Seq::empty()),
        tree_parent_claims(*old(b)) == Set::<(Seq<char>, Seq<char>)>::empty(),
        tree_child_claims(*old(b)) == Set::<(Seq<char>, Seq<char>)>::empty(),
    ensures
        r == keys_nested(keys_of(rows@)),
        r ==> tree_items(*final(b)) == items_of(keys_of(rows@)) && tree_parent_claims(*final(b))
            == claims_of(keys_of(rows@)) && tree_child_claims(*final(b)) == claims_of(
            keys_of(rows@),
        ),
        tree_deletions(*final(b)) == tree_deletions(*old(b)),
{
    let ghost keys = keys_of(rows@);
    let mut i: usize = 0;
    while i < rows.len()
        invariant
            i <= rows@.len(),
            keys == keys_of(rows@),
            keys.len() == rows@.len(),
            keys_nested(keys.take(i as int)),
            tree_items(*b) == items_of(keys.take(i as int)),
            tree_parent_claims(*b) == claims_of(keys.take(i as int)),
            tree_child_claims(*b) == claims_of(keys.take(i as int)),
            tree_deletions(*b) == tree_deletions(*old(b)),
        decreases rows.len() - i,
    {
        let ghost prev = keys.take(i as int);
        assert(keys.take(i + 1).drop_last() =~= prev);
        assert(keys.take(i + 1).last() == rows@[i as int].key());
        let row = &rows[i];
        proof {
            lemma_items_have_root(prev);
        }
        let parent = match &row.parent {
            Some(p) => p,
            None => {
                proof {
                    if keys_nested(keys) {
                        lemma_nested_prefix(keys, i + 1);
                    }
                }
                return false;
            },
        };
        if !builder_item(b, &row.item, row.content.clone()) {
            proof {
                if keys_nested(keys) {
                    lemma_nested_prefix(keys, i + 1);
                }
            }
            return false;
        }
        if !builder_by_structure(b, &row.item.guid, parent) {
            proof {
                if keys_nested(keys) {
                    lemma_nested_prefix(keys, i + 1);
                }
            }
            return false;
        }
        i = i + 1;
    }
    assert(keys.take(rows@.len() as int) =~= keys);
    true
}

/// Records each folder's claims on its children.
fn add_child_claims(b: &mut TreeBuilder, pairs: &Vec<StructurePair>) -> (r: bool)
    ensures
        r == forall|j: int|
            0 <= j < pairs@.len() ==> is_folder_in(tree_items(*old(b)), (#[trigger] pairs@[j]).parent_guid@)
                && pairs@[j].guid@ != root_guid(),
        r ==> tree_child_claims(*final(b)) == tree_child_claims(*old(b)).union(pair_set(pairs@)),
        tree_items(*final(b)) == tree_items(*old(b)),
        tree_parent_claims(*final(b)) == tree_parent_claims(*old(b)),
        tree_deletions(*final(b)) == tree_deletions(*old(b)),
{
    let mut j: usize = 0;
    while j < pairs.len()
        invariant
            j <= pairs@.len(),
            forall|k: int|
                0 <= k < j ==> is_folder_in(tree_items(*old(b)), (#[trigger] pairs@[k]).parent_guid@)
                    && pairs@[k].guid@ != root_guid(),
            tree_child_claims(*b) == tree_child_claims(*old(b)).union(pair_set(pairs@.take(j as int))),
            tree_items(*b) == tree_items(*old(b)),
            tree_parent_claims(*b) == tree_parent_claims(*old(b)),
            tree_deletions(*b) == tree_deletions(*old(b)),
        decreases pairs.len() - j,
    {
        assert(pairs@.take(j + 1).drop_last() =~= pairs@.take(j as int));
        let p = &pairs[j];
        if !builder_by_children(b, &p.guid, &p.parent_guid) {
            return false;
        }
        assert(tree_child_claims(*b) =~= tree_child_claims(*old(b)).union(
            pair_set(pairs@.take(j + 1)),
        ));
        j = j + 1;
    }
    assert(pairs@.take(pairs@.len() as int) =~= pairs@);
    true
}

/// Notes each deleted GUID.
fn add_deletions(b: &mut TreeBuilder, deletions: &Vec<SyncGuid>)
    ensures
        tree_deletions(*final(b)) == tree_deletions(*old(b)).union(guid_set(deletions@)),
        tree_items(*final(b)) == tree_items(*old(b)),
        tree_parent_claims(*final(b)) == tree_parent_claims(*old(b)),
        tree_child_claims(*final(b)) == tree_child_claims(*old(b)),
{
    let mut j: usize = 0;
    while j < deletions.len()
        invariant
            j <= deletions@.len(),
            tree_deletions(*b) == tree_deletions(*old(b)).union(guid_set(deletions@.take(j as int))),
            tree_items(*b) == tree_items(*old(b)),
            tree_parent_claims(*b) == tree_parent_claims(*old(b)),
            tree_child_claims(*b) == tree_child_claims(*old(b)),
        decreases deletions.len() - j,
    {
        assert(deletions@.take(j + 1).drop_last() =~= deletions@.take(j as int));
        builder_deletion(b, &deletions[j]);
        assert(tree_deletions(*b) =~= tree_deletions(*old(b)).union(
            guid_set(deletions@.take(j + 1)),
        ));
        j = j + 1;
    }
    assert(deletions@.take(deletions@.len() as int) =~= deletions@);
}

/// One mirror row, as read for the remote tree.
#[derive(Debug, Clone)]
pub struct RemoteRow {
    pub guid: SyncGuid,
    /// The parent that the record itself claims.
    pub parent_guid: Option<SyncGuid>,
    /// Server modification time, in milliseconds.
    pub server_modified: u64,
    /// The stored kind code.
    pub kind: u8,
    pub needs_merge: bool,
    /// The stored validity code.
    pub validity: u8,
    pub title: String,
    pub url: Option<String>,
    /// The row's position in a folder other than the root, if any.
    pub position: Option<i64>,
    /// Whether a local item has the same GUID.
    pub has_local: bool,
}

/// The fingerprint shape of a mirror row: only rows that need merging, have
/// no local counterpart and sit in a folder get one.
pub open spec fn remote_shape(row: RemoteRow) -> Option<SyncedBookmarkKind> {
    if row.needs_merge && !row.has_local && row.position is Some {
        match SyncedBookmarkKind::spec_from_code(row.kind) {
            Some(k) => content_kind(k),
            None => None,
        }
    } else {
        None
    }
}

/// Whether a mirror row can be read: known kind and validity, and a URL
/// when its fingerprint needs one.
pub open spec fn remote_row_outcome(row: RemoteRow) -> Result<(), Error> {
    match SyncedBookmarkKind::spec_from_code(row.kind) {
        None => Err(Error::UnsupportedKind),
        Some(_) => match SyncedBookmarkValidity::spec_from_code(row.validity) {
            None => Err(Error::UnsupportedValidity),
            Some(_) => if content_ok(remote_shape(row), row.url) {
                Ok(())
            } else {
                Err(Error::NoUrl)
            },
        },
    }
}

/// The tree item of a mirror row: its age runs from the sync's remote
/// reference time.
pub open spec fn remote_key(row: RemoteRow, remote_time: u64) -> TreeKey {
    TreeKey {
        guid: row.guid@,
        info: (
            SyncedBookmarkKind::spec_from_code(row.kind).unwrap(),
            age_of(row.server_modified, remote_time),
            row.needs_merge,
            SyncedBookmarkValidity::spec_from_code(row.validity).unwrap(),
        ),
        parent: opt_guid_view(row.parent_guid),
    }
}

pub open spec fn remote_keys(rows: Seq<RemoteRow>, remote_time: u64) -> Seq<TreeKey> {
    rows.map_values(|r: RemoteRow| remote_key(r, remote_time))
}

/// Whether a folder's child claim can be recorded in a tree holding `items`.
pub open spec fn pair_ok(
    items: Map<Seq<char>, (SyncedBookmarkKind, i64, bool, SyncedBookmarkValidity)>,
    p: StructurePair,
) -> bool {
    is_folder_in(items, p.parent_guid@) && p.guid@ != root_guid()
}

/// Whether the remote tree can be built: every row reads, no GUID repeats
/// (nor is the root's), and every child claim names a folder of the tree.
pub open spec fn remote_tree_ok(rows: Seq<RemoteRow>, structure: Seq<StructurePair>, remote_time: u64) -> bool {
    &&& forall|i: int| 0 <= i < rows.len() ==> (#[trigger] remote_row_outcome(rows[i])) is Ok
    &&& keys_fresh(remote_keys(rows, remote_time))
    &&& forall|j: int|
        0 <= j < structure.len() ==> pair_ok(
            items_of(remote_keys(rows, remote_time)),
            #[trigger] structure[j],
        )
}

/// Reads one mirror row as a tree row, with its fingerprint.
pub fn remote_tree_row(row: &RemoteRow, remote_time: u64) -> (r: Result<TreeRow, Error>)
    ensures
        match r {
            Ok(tr) => remote_row_outcome(*row) is Ok && tr.key() == remote_key(*row, remote_time)
                && match remote_shape(*row) {
                Some(s) => tr.content matches Some(c) && content_is(
                    c,
                    s,
                    row.title,
                    row.url,
                    row.position.unwrap(),
                ),
                None => tr.content.is_none(),
            },
            Err(e) => remote_row_outcome(*row) == Err::<(), Error>(e),
        },
{
    let kind = match SyncedBookmarkKind::from_u8(row.kind) {
        Some(k) => k,
        None => {
            return Err(Error::UnsupportedKind);
        },
    };
    let validity = match SyncedBookmarkValidity::from_u8(row.validity) {
        Some(v) => v,
        None => {
            return Err(Error::UnsupportedValidity);
        },
    };
    let shape = match row.position {
        Some(_) => if row.needs_merge && !row.has_local {
            match kind {
                SyncedBookmarkKind::Bookmark | SyncedBookmarkKind::Query => Some(
                    SyncedBookmarkKind::Bookmark,
                ),
                SyncedBookmarkKind::Folder => Some(SyncedBookmarkKind::Folder),
                SyncedBookmarkKind::Separator => Some(SyncedBookmarkKind::Separator),
                SyncedBookmarkKind::Livemark => None,
            }
        } else {
            None
        },
        None => None,
    };
    let position = match row.position {
        Some(p) => p,
        None => 0,
    };
    let content = content_of_shape(shape, &row.title, &row.url, position)?;
    let parent = match &row.parent_guid {
        Some(p) => Some(p.cloned()),
        None => None,
    };
    let item = remote_tree_item(
        row.guid.cloned(),
        kind,
        row.server_modified,
        row.needs_merge,
        validity,
        remote_time,
    );
    Ok(TreeRow { item, content, parent })
}

/// Builds the remote tree from the mirror: every row becomes an item with the
/// parent its record claims, each folder's structure rows claim its children,
/// and remotely deleted GUIDs are noted. It fails exactly when a row cannot
/// be read, a GUID repeats, or a structure row names no folder of the tree.
pub fn build_remote_tree(
    rows: &Vec<RemoteRow>,
    structure: &Vec<StructurePair>,
    deletions: &Vec<SyncGuid>,
    remote_time: u64,
) -> (r: Result<TreeBuilder, Error>)
    ensures
        r is Ok <==> remote_tree_ok(rows@, structure@, remote_time),
        r matches Ok(b) ==> {
            &&& tree_items(b) == items_of(remote_keys(rows@, remote_time))
            &&& tree_parent_claims(b) == claims_of(remote_keys(rows@, remote_time))
            &&& tree_child_claims(b) == pair_set(structure@)
            &&& tree_deletions(b) == guid_set(deletions@)
        },
{
    let mut trs: Vec<TreeRow> = Vec::new();
    let mut i: usize = 0;
    while i < rows.len()
        invariant
            i <= rows@.len(),
            trs@.len() == i,
            forall|k: int| 0 <= k < i ==> (#[trigger] remote_row_outcome(rows@[k])) is Ok,
            forall|k: int|
                0 <= k < i ==> (#[trigger] trs@[k]).key() == remote_key(rows@[k], remote_time),
        decreases rows.len() - i,
    {
        let tr = match remote_tree_row(&rows[i], remote_time) {
            Ok(tr) => tr,
            Err(e) => {
                return Err(e);
            },
        };
        trs.push(tr);
        i = i + 1;
    }
    let ghost keys = remote_keys(rows@, remote_time);
    assert(keys_of(trs@) =~= keys);
    let mut b = builder_with_root();
    assert(tree_items(b) =~= items_of(Seq::<TreeKey>::empty()));
    if !add_claimed_rows(&mut b, &trs) {
        return Err(Error::InvalidTree);
    }
    if !add_child_claims(&mut b, structure) {
        return Err(Error::InvalidTree);
    }
    add_deletions(&mut b, deletions);
    assert(tree_child_claims(b) =~= pair_set(structure@));
    assert(tree_deletions(b) =~= guid_set(deletions@));
    Ok(b)
}

/// One local item, as read for the local tree, in tree order: parents come
/// before their children.
#[derive(Debug, Clone)]
pub struct LocalRow {
    pub guid: SyncGuid,
    pub parent_guid: SyncGuid,
    /// The stored type code.
    pub typ: u8,
    pub url: Option<String>,
    /// Last local modification, in milliseconds.
    pub last_modified: Timestamp,
    pub sync_change_counter: u32,
    pub title: String,
    pub position: i64,
    /// Whether the mirror has a row with the same GUID.
    pub has_mirror: bool,
    /// The stored sync status code.
    pub sync_status: u8,
}

/// The record kind of a local row: a type that is neither a bookmark nor a
/// folder is a separator.
pub open spec fn local_kind(typ: u8, url: Option<String>) -> SyncedBookmarkKind {
    match BookmarkType::spec_from_code(typ) {
        Some(t) => kind_of_local(
            t,
            match url {
                Some(u) => Some(u@),
                None => None,
            },
        ),
        None => SyncedBookmarkKind::Separator,
    }
}

/// The fingerprint shape of a local row: only new items, outside the root,
/// that have never synced get one, by their type.
pub open spec fn local_shape(row: LocalRow) -> Option<SyncedBookmarkKind> {
    if !row.has_mirror && root_with_guid(row.parent_guid@) != Some(BookmarkRootGuids::Root)
        && row.sync_status != SyncStatus::Normal.spec_code() {
        match BookmarkType::spec_from_code(row.typ) {
            Some(t) => content_kind(kind_of_local(t, None)),
            None => None,
        }
    } else {
        None
    }
}

/// The tree item of a local row: its age runs from the sync's local
/// reference time, and it needs merging when it has unsynced changes.
pub open spec fn local_key(row: LocalRow, local_time: Timestamp) -> TreeKey {
    TreeKey {
        guid: row.guid@,
        info: (
            local_kind(row.typ, row.url),
            age_of(row.last_modified.0, local_time.0),
            row.sync_change_counter > 0,
            SyncedBookmarkValidity::Valid,
        ),
        parent: Some(row.parent_guid@),
    }
}

pub open spec fn local_keys(rows: Seq<LocalRow>, local_time: Timestamp) -> Seq<TreeKey> {
    rows.map_values(|r: LocalRow| local_key(r, local_time))
}

/// Reads one local row as a tree row, with its fingerprint.
pub fn local_tree_row(row: &LocalRow, local_time: Timestamp) -> (r: Result<TreeRow, Error>)
    ensures
        match r {
            Ok(tr) => content_ok(local_shape(*row), row.url) && tr.key() == local_key(
                *row,
                local_time,
            ) && match local_shape(*row) {
                Some(s) => tr.content matches Some(c) && content_is(
                    c,
                    s,
                    row.title,
                    row.url,
                    row.position,
                ),
                None => tr.content.is_none(),
            },
            Err(e) => !content_ok(local_shape(*row), row.url) && e == Error::NoUrl,
        },
{
    let typ = BookmarkType::from_u8(row.typ);
    let wanted = !row.has_mirror && match BookmarkRootGuids::from_guid(&row.parent_guid) {
        Some(BookmarkRootGuids::Root) => false,
        _ => true,
    } && row.sync_status != SyncStatus::Normal.as_u8();
    let shape = if wanted {
        match typ {
            Some(BookmarkType::Bookmark) => Some(SyncedBookmarkKind::Bookmark),
            Some(BookmarkType::Folder) => Some(SyncedBookmarkKind::Folder),
            Some(BookmarkType::Separator) => Some(SyncedBookmarkKind::Separator),
            None => None,
        }
    } else {
        None
    };
    let content = content_of_shape(shape, &row.title, &row.url, row.position)?;
    let url = match &row.url {
        Some(u) => Some(u.as_str()),
        None => None,
    };
    let item = local_tree_item(
        row.guid.cloned(),
        match typ {
            Some(t) => t,
            None => BookmarkType::Separator,
        },
        url,
        row.last_modified,
        row.sync_change_counter,
        local_time,
    );
    Ok(TreeRow { item, content, parent: Some(row.parent_guid.cloned()) })
}

/// Builds the local tree: every row becomes an item under its parent, which
/// must already be a folder of the tree, and locally deleted GUIDs are noted.
/// It fails exactly when a row's fingerprint lacks its URL, a GUID repeats,
/// or a parent is not a folder met before.
pub fn build_local_tree(rows: &Vec<LocalRow>, deletions: &Vec<SyncGuid>, local_time: Timestamp) -> (r:
    Result<TreeBuilder, Error>)
    ensures
        r is Ok <==> (forall|i: int|
            0 <= i < rows@.len() ==> content_ok(local_shape(#[trigger] rows@[i]), rows@[i].url))
            && keys_nested(local_keys(rows@, local_time)),
        r matches Ok(b) ==> {
            &&& tree_items(b) == items_of(local_keys(rows@, local_time))
            &&& tree_parent_claims(b) == claims_of(local_keys(rows@, local_time))
            &&& tree_child_claims(b) == claims_of(local_keys(rows@, local_time))
            &&& tree_deletions(b) == guid_set(deletions@)
        },
{
    let mut trs: Vec<TreeRow> = Vec::new();
    let mut i: usize = 0;
    while i < rows.len()
        invariant
            i <= rows@.len(),
            trs@.len() == i,
            forall|k: int|
                0 <= k < i ==> content_ok(local_shape(#[trigger] rows@[k]), rows@[k].url),
            forall|k: int|
                0 <= k < i ==> (#[trigger] trs@[k]).key() == local_key(rows@[k], local_time),
        decreases rows.len() - i,
    {
        let tr = match local_tree_row(&rows[i], local_time) {
            Ok(tr) => tr,
            Err(e) => {
                return Err(e);
            },
        };
        trs.push(tr);
        i = i + 1;
    }
    let ghost keys = local_keys(rows@, local_time);
    assert(keys_of(trs@) =~= keys);
    let mut b = builder_with_root();
    assert(tree_items(b) =~= items_of(Seq::<TreeKey>::empty()));
    if !add_nested_rows(&mut b, &trs) {
        return Err(Error::InvalidTree);
    }
    add_deletions(&mut b, deletions);
    assert(tree_deletions(b) =~= guid_set(deletions@));
    Ok(b)
}

} // verus!
