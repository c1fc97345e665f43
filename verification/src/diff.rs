//! The upload plan: a local listing held against the remote manifest.

use vstd::prelude::*;
use vstd::slice::slice_to_vec;
use crate::hash::{fingerprint, fingerprints_match, generate_hash, same_fingerprint};
use crate::manifest::{remote_views, RemoteEntryView, RemoteManifestEntry};
use crate::scan::{
    has_distinct_paths, is_walk_of, lemma_scan_has_distinct_paths, local_views, scanned, LocalFile,
    LocalFileView, WalkEntry,
};

verus! {

/// What a sync has to do: the local files that the store lacks, those that
/// it holds with other content, and the paths that only the store has.
#[derive(Debug)]
pub struct UploadPlan {
    pub to_add: Vec<LocalFile>,
    pub to_update: Vec<LocalFile>,
    pub to_delete: Vec<String>,
}

/// What an `UploadPlan` holds.
pub struct UploadPlanView {
    pub to_add: Seq<LocalFileView>,
    pub to_update: Seq<LocalFileView>,
    pub to_delete: Seq<Seq<char>>,
}

impl View for UploadPlan {
    type V = UploadPlanView;

    open spec fn view(&self) -> UploadPlanView {
        UploadPlanView {
            to_add: local_views(self.to_add@),
            to_update: local_views(self.to_update@),
            to_delete: self.to_delete@.map_values(|p: String| p@),
        }
    }
}

/// How a local file stands to the manifest.
#[derive(Clone, Copy, PartialEq, Eq, Structural, Debug)]
pub enum Change {
    /// The store has no file at its path.
    Add,
    /// The store has a file at its path with another fingerprint.
    Update,
    /// The store has a file at its path with the same fingerprint.
    Unchanged,
}

/// The fingerprint that the manifest gives for `path`: that of its first
/// entry at that path.
pub open spec fn lookup(remote: Seq<RemoteEntryView>, path: Seq<char>) -> Option<Seq<char>>
    decreases remote.len(),
{
    if remote.len() == 0 {
        None
    } else if remote[0].relative_path == path {
        Some(remote[0].fingerprint)
    } else {
        lookup(remote.drop_first(), path)
    }
}

/// Whether the local listing has a file at `path`.
pub open spec fn local_has(local: Seq<LocalFileView>, path: Seq<char>) -> bool {
    exists|i: int| 0 <= i < local.len() && (#[trigger] local[i]).relative_path == path
}

/// How `file` stands to the manifest `remote`.
pub open spec fn classify(file: LocalFileView, remote: Seq<RemoteEntryView>) -> Change {
    match lookup(remote, file.relative_path) {
        None => Change::Add,
        Some(print) => if same_fingerprint(fingerprint(file.content), print) {
            Change::Unchanged
        } else {
            Change::Update
        },
    }
}

/// The local files that `remote` lacks.
pub open spec fn is_added(remote: Seq<RemoteEntryView>) -> spec_fn(LocalFileView) -> bool {
    |f: LocalFileView| classify(f, remote) is Add
}

/// The local files that `remote` holds with other content.
pub open spec fn is_updated(remote: Seq<RemoteEntryView>) -> spec_fn(LocalFileView) -> bool {
    |f: LocalFileView| classify(f, remote) is Update
}

/// The manifest entries whose path `local` lacks.
pub open spec fn is_deleted(local: Seq<LocalFileView>) -> spec_fn(RemoteEntryView) -> bool {
    |e: RemoteEntryView| !local_has(local, e.relative_path)
}

/// The plan for `local` against `remote`. Each part keeps the order of the
/// listing it is taken from.
pub open spec fn planned(local: Seq<LocalFileView>, remote: Seq<RemoteEntryView>) -> UploadPlanView {
    UploadPlanView {
        to_add: local.filter(is_added(remote)),
        to_update: local.filter(is_updated(remote)),
        to_delete: remote.filter(is_deleted(local)).map_values(
            |e: RemoteEntryView| e.relative_path,
        ),
    }
}

/// Whether a plan asks for nothing.
pub open spec fn is_empty_plan(plan: UploadPlanView) -> bool {
    plan.to_add.len() == 0 && plan.to_update.len() == 0 && plan.to_delete.len() == 0
}

/// Looks `path` up in the manifest, from its front. A `HashMap` keyed by
/// path would find it faster, but vstd gives `String` no key model, so
/// nothing could be proved of what such a map holds.
pub fn find_fingerprint(remote: &Vec<RemoteManifestEntry>, path: &String) -> (found: Option<String>)
    ensures
        match found {
            Some(print) => lookup(remote_views(remote@), path@) == Some(print@),
            None => lookup(remote_views(remote@), path@) is None,
        },
{
    let mut i: usize = 0;
    assert(remote_views(remote@).skip(0) == remote_views(remote@));
    while i < remote.len()
        invariant
            i <= remote@.len(),
            lookup(remote_views(remote@), path@) == lookup(
                remote_views(remote@).skip(i as int),
                path@,
            ),
        decreases remote@.len() - i,
    {
        if remote[i].relative_path == *path {
            return Some(remote[i].fingerprint());
        }
        assert(remote_views(remote@).skip(i as int).drop_first() == remote_views(remote@).skip(
            i + 1,
        ));
        i += 1;
    }
    None
}

/// Tests whether the local listing has a file at `path`.
pub fn has_local_path(local: &Vec<LocalFile>, path: &String) -> (found: bool)
    ensures
        found == local_has(local_views(local@), path@),
{
    let mut i: usize = 0;
    while i < local.len()
        invariant
            i <= local@.len(),
            forall|j: int| 0 <= j < i ==> (#[trigger] local_views(local@)[j]).relative_path != path@,
        decreases local@.len() - i,
    {
        if local[i].relative_path == *path {
            assert(local_views(local@)[i as int].relative_path == path@);
            return true;
        }
        i += 1;
    }
    false
}

/// Classifies one local file against the manifest.
pub fn classify_file(file: &LocalFile, remote: &Vec<RemoteManifestEntry>) -> (change: Change)
    ensures
        change == classify(file@, remote_views(remote@)),
{
    match find_fingerprint(remote, &file.relative_path) {
        None => Change::Add,
        Some(print) => {
            let own = generate_hash(file.content.as_slice());
            if fingerprints_match(own.as_str(), print.as_str()) {
                Change::Unchanged
            } else {
                Change::Update
            }
        },
    }
}

fn copy_of(file: &LocalFile) -> (copy: LocalFile)
    ensures
        copy@ == file@,
{
    LocalFile {
        relative_path: file.relative_path.clone(),
        content: slice_to_vec(file.content.as_slice()),
    }
}

/// Computes the upload plan for `local` against `remote`.
pub fn diff(local: &Vec<LocalFile>, remote: &Vec<RemoteManifestEntry>) -> (plan: UploadPlan)
    ensures
        plan@ == planned(local_views(local@), remote_views(remote@)),
{
    let ghost lv = local_views(local@);
    let ghost rv = remote_views(remote@);
    let mut to_add: Vec<LocalFile> = Vec::new();
    let mut to_update: Vec<LocalFile> = Vec::new();
    let mut i: usize = 0;
    while i < local.len()
        invariant
            i <= local@.len(),
            lv == local_views(local@),
            rv == remote_views(remote@),
            local_views(to_add@) == lv.take(i as int).filter(is_added(rv)),
            local_views(to_update@) == lv.take(i as int).filter(is_updated(rv)),
        decreases local@.len() - i,
    {
        proof {
            reveal(Seq::filter);
            assert(lv.take(i + 1).drop_last() == lv.take(i as int));
        }
        let ghost added = to_add@;
        let ghost updated = to_update@;
        match classify_file(&local[i], remote) {
            Change::Add => {
                to_add.push(copy_of(&local[i]));
                assert(local_views(to_add@) == local_views(added).push(lv[i as int]));
            },
            Change::Update => {
                to_update.push(copy_of(&local[i]));
                assert(local_views(to_update@) == local_views(updated).push(lv[i as int]));
            },
            Change::Unchanged => {},
        }
        i += 1;
    }
    assert(lv.take(i as int) == lv);
    let mut to_delete: Vec<String> = Vec::new();
    let mut j: usize = 0;
    while j < remote.len()
        invariant
            j <= remote@.len(),
            lv == local_views(local@),
            rv == remote_views(remote@),
            to_delete@.map_values(|p: String| p@) == rv.take(j as int).filter(
                is_deleted(lv),
            ).map_values(|e: RemoteEntryView| e.relative_path),
        decreases remote@.len() - j,
    {
        proof {
            reveal(Seq::filter);
            assert(rv.take(j + 1).drop_last() == rv.take(j as int));
        }
        let ghost deleted = to_delete@;
        if !has_local_path(local, &remote[j].relative_path) {
            to_delete.push(remote[j].relative_path.clone());
            assert(to_delete@.map_values(|p: String| p@) == deleted.map_values(|p: String| p@).push(
                rv[j as int].relative_path,
            ));
            assert(rv.take(j + 1).filter(is_deleted(lv)).map_values(
                |e: RemoteEntryView| e.relative_path,
            ) == rv.take(j as int).filter(is_deleted(lv)).map_values(
                |e: RemoteEntryView| e.relative_path,
            ).push(rv[j as int].relative_path));
        }
        j += 1;
    }
    assert(rv.take(j as int) == rv);
    UploadPlan { to_add, to_update, to_delete }
}

impl UploadPlan {
    /// Tests whether the plan asks for nothing.
    pub fn is_empty(&self) -> (empty: bool)
        ensures
            empty == is_empty_plan(self@),
    {
        self.to_add.len() == 0 && self.to_update.len() == 0 && self.to_delete.len() == 0
    }
}

/// The paths of a list of local files.
pub open spec fn local_paths(files: Seq<LocalFileView>) -> Seq<Seq<char>> {
    files.map_values(|f: LocalFileView| f.relative_path)
}

/// Whether no two entries of a manifest share a path.
pub open spec fn distinct_remote_paths(remote: Seq<RemoteEntryView>) -> bool {
    forall|i: int, j: int|
        0 <= i < j < remote.len() ==> (#[trigger] remote[i]).relative_path != (
        #[trigger] remote[j]).relative_path
}

/// Whether the manifest has an entry at `path`.
pub open spec fn remote_has(remote: Seq<RemoteEntryView>, path: Seq<char>) -> bool {
    exists|j: int| 0 <= j < remote.len() && (#[trigger] remote[j]).relative_path == path
}

/// Whether `path` stands at one place of `paths` and at no other.
pub open spec fn exactly_once(paths: Seq<Seq<char>>, path: Seq<char>) -> bool {
    exists|k: int|
        0 <= k < paths.len() && #[trigger] paths[k] == path && forall|m: int|
            0 <= m < paths.len() && #[trigger] paths[m] == path ==> m == k
}

/// Whether the store holds `file` as it is: the manifest has its path, with
/// the fingerprint of its content.
pub open spec fn held_unchanged(file: LocalFileView, remote: Seq<RemoteEntryView>) -> bool {
    match lookup(remote, file.relative_path) {
        Some(print) => same_fingerprint(fingerprint(file.content), print),
        None => false,
    }
}

/// Whether the store holds what the local listing holds and nothing else.
pub open spec fn in_sync(local: Seq<LocalFileView>, remote: Seq<RemoteEntryView>) -> bool {
    &&& forall|i: int| 0 <= i < local.len() ==> held_unchanged(#[trigger] local[i], remote)
    &&& forall|j: int|
        0 <= j < remote.len() ==> local_has(local, (#[trigger] remote[j]).relative_path)
}

/// The manifest of a store that holds exactly the files of `local`.
pub open spec fn mirror(local: Seq<LocalFileView>) -> Seq<RemoteEntryView> {
    local.map_values(
        |f: LocalFileView|
            RemoteEntryView { relative_path: f.relative_path, fingerprint: fingerprint(f.content) },
    )
}

/// The manifest gives a fingerprint for exactly the paths it has.
pub proof fn lemma_lookup_finds_path(remote: Seq<RemoteEntryView>, path: Seq<char>)
    ensures
        lookup(remote, path) is Some <==> remote_has(remote, path),
    decreases remote.len(),
{
    if remote.len() > 0 {
        if remote[0].relative_path != path {
            let rest = remote.drop_first();
            lemma_lookup_finds_path(rest, path);
            if remote_has(rest, path) {
                let j = choose|j: int| 0 <= j < rest.len() && (#[trigger] rest[j]).relative_path == path;
                assert(remote[j + 1].relative_path == path);
            }
            if remote_has(remote, path) {
                let j = choose|j: int|
                    0 <= j < remote.len() && (#[trigger] remote[j]).relative_path == path;
                assert(rest[j - 1].relative_path == path);
            }
        }
    }
}

/// In a manifest without repeated paths, the fingerprint given for an
/// entry's path is that entry's.
pub proof fn lemma_lookup_of_entry(remote: Seq<RemoteEntryView>, j: int)
    requires
        distinct_remote_paths(remote),
        0 <= j < remote.len(),
    ensures
        lookup(remote, remote[j].relative_path) == Some(remote[j].fingerprint),
    decreases remote.len(),
{
    if j > 0 {
        let rest = remote.drop_first();
        assert(remote[0].relative_path != remote[j].relative_path);
        assert forall|a: int, b: int| 0 <= a < b < rest.len() implies (#[trigger] rest[a]).relative_path
            != (#[trigger] rest[b]).relative_path by {
            assert(rest[a] == remote[a + 1] && rest[b] == remote[b + 1]);
        }
        lemma_lookup_of_entry(rest, j - 1);
    }
}

/// Whether no two elements of `items` share a key.
pub open spec fn has_distinct_keys<T>(items: Seq<T>, key: spec_fn(T) -> Seq<char>) -> bool {
    forall|i: int, j: int|
        0 <= i < j < items.len() ==> key(#[trigger] items[i]) != key(#[trigger] items[j])
}

proof fn lemma_filter_keeps_keys_distinct<T>(
    items: Seq<T>,
    keep: spec_fn(T) -> bool,
    key: spec_fn(T) -> Seq<char>,
)
    requires
        has_distinct_keys(items, key),
    ensures
        has_distinct_keys(items.filter(keep), key),
    decreases items.len(),
{
    reveal(Seq::filter);
    if items.len() > 0 {
        let front = items.drop_last();
        assert(has_distinct_keys(front, key)) by {
            assert forall|i: int, j: int| 0 <= i < j < front.len() implies key(#[trigger] front[i])
                != key(#[trigger] front[j]) by {
                assert(front[i] == items[i] && front[j] == items[j]);
            }
        }
        lemma_filter_keeps_keys_distinct(front, keep, key);
        if keep(items.last()) {
            let kept = items.filter(keep);
            assert forall|a: int, b: int| 0 <= a < b < kept.len() implies key(#[trigger] kept[a])
                != key(#[trigger] kept[b]) by {
                if b == kept.len() - 1 {
                    assert(front.filter(keep).contains(kept[a]));
                    front.lemma_filter_contains_rev(keep, kept[a]);
                    let m = choose|m: int| 0 <= m < front.len() && front[m] == kept[a];
                    assert(items[m] == kept[a]);
                    assert(items[items.len() - 1] == kept[b]);
                } else {
                    assert(front.filter(keep)[a] == kept[a] && front.filter(keep)[b] == kept[b]);
                }
            }
        }
    }
}

/// Every file of a plan is a file of the local listing, added only where the
/// manifest lacks its path and updated only where the manifest holds it with
/// another fingerprint; every deleted path is a path of the manifest that
/// the local listing lacks.
pub proof fn lemma_plan_is_sound(local: Seq<LocalFileView>, remote: Seq<RemoteEntryView>)
    ensures
        forall|k: int|
            0 <= k < planned(local, remote).to_add.len() ==> {
                let f = #[trigger] planned(local, remote).to_add[k];
                local.contains(f) && !remote_has(remote, f.relative_path)
            },
        forall|k: int|
            0 <= k < planned(local, remote).to_update.len() ==> {
                let f = #[trigger] planned(local, remote).to_update[k];
                local.contains(f) && remote_has(remote, f.relative_path) && !held_unchanged(
                    f,
                    remote,
                )
            },
        forall|k: int|
            0 <= k < planned(local, remote).to_delete.len() ==> {
                let p = #[trigger] planned(local, remote).to_delete[k];
                remote_has(remote, p) && !local_has(local, p)
            },
{
    let plan = planned(local, remote);
    assert forall|k: int| 0 <= k < plan.to_add.len() implies {
        let f = #[trigger] plan.to_add[k];
        local.contains(f) && !remote_has(remote, f.relative_path)
    } by {
        let f = plan.to_add[k];
        local.lemma_filter_pred(is_added(remote), k);
        assert(local.filter(is_added(remote)).contains(f));
        local.lemma_filter_contains_rev(is_added(remote), f);
        lemma_lookup_finds_path(remote, f.relative_path);
    }
    assert forall|k: int| 0 <= k < plan.to_update.len() implies {
        let f = #[trigger] plan.to_update[k];
        local.contains(f) && remote_has(remote, f.relative_path) && !held_unchanged(f, remote)
    } by {
        let f = plan.to_update[k];
        local.lemma_filter_pred(is_updated(remote), k);
        assert(local.filter(is_updated(remote)).contains(f));
        local.lemma_filter_contains_rev(is_updated(remote), f);
        lemma_lookup_finds_path(remote, f.relative_path);
    }
    assert forall|k: int| 0 <= k < plan.to_delete.len() implies {
        let p = #[trigger] plan.to_delete[k];
        remote_has(remote, p) && !local_has(local, p)
    } by {
        let gone = remote.filter(is_deleted(local));
        remote.lemma_filter_pred(is_deleted(local), k);
        assert(gone.contains(gone[k]));
        remote.lemma_filter_contains_rev(is_deleted(local), gone[k]);
        let j = choose|j: int| 0 <= j < remote.len() && remote[j] == gone[k];
        assert(remote[j].relative_path == plan.to_delete[k]);
    }
}

/// A local path that the manifest lacks stands in `to_add` exactly once.
pub proof fn lemma_missing_remotely_is_added_once(
    local: Seq<LocalFileView>,
    remote: Seq<RemoteEntryView>,
    i: int,
)
    requires
        has_distinct_paths(local),
        0 <= i < local.len(),
        !remote_has(remote, local[i].relative_path),
    ensures
        exactly_once(local_paths(planned(local, remote).to_add), local[i].relative_path),
{
    let added = local.filter(is_added(remote));
    let paths = local_paths(added);
    lemma_lookup_finds_path(remote, local[i].relative_path);
    local.lemma_filter_contains(is_added(remote), i);
    let k = choose|k: int| 0 <= k < added.len() && added[k] == local[i];
    let path = |f: LocalFileView| f.relative_path;
    assert(has_distinct_keys(local, path));
    lemma_filter_keeps_keys_distinct(local, is_added(remote), path);
    assert(paths[k] == local[i].relative_path);
    assert forall|m: int| 0 <= m < paths.len() && #[trigger] paths[m] == local[i].relative_path implies m
        == k by {
        if m < k {
            assert(added[m].relative_path != added[k].relative_path);
        } else if k < m {
            assert(added[k].relative_path != added[m].relative_path);
        }
    }
}

/// A path of the manifest that the local listing lacks stands in
/// `to_delete` exactly once.
pub proof fn lemma_missing_locally_is_deleted_once(
    local: Seq<LocalFileView>,
    remote: Seq<RemoteEntryView>,
    j: int,
)
    requires
        distinct_remote_paths(remote),
        0 <= j < remote.len(),
        !local_has(local, remote[j].relative_path),
    ensures
        exactly_once(planned(local, remote).to_delete, remote[j].relative_path),
{
    let gone = remote.filter(is_deleted(local));
    let paths = planned(local, remote).to_delete;
    remote.lemma_filter_contains(is_deleted(local), j);
    let k = choose|k: int| 0 <= k < gone.len() && gone[k] == remote[j];
    let path = |e: RemoteEntryView| e.relative_path;
    assert(has_distinct_keys(remote, path));
    lemma_filter_keeps_keys_distinct(remote, is_deleted(local), path);
    assert(paths[k] == remote[j].relative_path);
    assert forall|m: int| 0 <= m < paths.len() && #[trigger] paths[m] == remote[j].relative_path implies m
        == k by {
        if m < k {
            assert(gone[m].relative_path != gone[k].relative_path);
        } else if k < m {
            assert(gone[k].relative_path != gone[m].relative_path);
        }
    }
}

/// A local file whose content the store holds, byte for byte, stands in
/// neither `to_add` nor `to_update`: not the file, and no other under its
/// path.
pub proof fn lemma_unchanged_is_not_planned(
    local: Seq<LocalFileView>,
    remote: Seq<RemoteEntryView>,
    i: int,
)
    requires
        has_distinct_paths(local),
        0 <= i < local.len(),
        held_unchanged(local[i], remote),
    ensures
        !local_paths(planned(local, remote).to_add).contains(local[i].relative_path),
        !local_paths(planned(local, remote).to_update).contains(local[i].relative_path),
{
    let plan = planned(local, remote);
    let path = local[i].relative_path;
    lemma_plan_is_sound(local, remote);
    lemma_lookup_finds_path(remote, path);
    if local_paths(plan.to_add).contains(path) {
        let k = choose|k: int| 0 <= k < plan.to_add.len() && local_paths(plan.to_add)[k] == path;
        assert(!remote_has(remote, plan.to_add[k].relative_path));
    }
    if local_paths(plan.to_update).contains(path) {
        let k = choose|k: int|
            0 <= k < plan.to_update.len() && local_paths(plan.to_update)[k] == path;
        let f = plan.to_update[k];
        assert(local.contains(f));
        let m = choose|m: int| 0 <= m < local.len() && local[m] == f;
        if m < i {
            assert(local[m].relative_path != local[i].relative_path);
        } else if i < m {
            assert(local[i].relative_path != local[m].relative_path);
        }
    }
}

/// A manifest entry that reports the fingerprint of a local file's very
/// bytes, or those bytes themselves, holds the file unchanged.
pub proof fn lemma_identical_content_is_held_unchanged(
    file: LocalFileView,
    remote: Seq<RemoteEntryView>,
    j: int,
)
    requires
        distinct_remote_paths(remote),
        0 <= j < remote.len(),
        remote[j].relative_path == file.relative_path,
        remote[j].fingerprint == fingerprint(file.content),
    ensures
        held_unchanged(file, remote),
{
    lemma_lookup_of_entry(remote, j);
}

/// A plan is empty exactly when the store holds what the local listing
/// holds and nothing else.
pub proof fn lemma_plan_is_empty_iff_in_sync(local: Seq<LocalFileView>, remote: Seq<RemoteEntryView>)
    ensures
        is_empty_plan(planned(local, remote)) <==> in_sync(local, remote),
{
    let plan = planned(local, remote);
    if in_sync(local, remote) {
        assert(local.all(|f: LocalFileView| !is_added(remote)(f)));
        local.lemma_all_neg_filter_empty(is_added(remote));
        assert(local.all(|f: LocalFileView| !is_updated(remote)(f)));
        local.lemma_all_neg_filter_empty(is_updated(remote));
        assert(remote.all(|e: RemoteEntryView| !is_deleted(local)(e)));
        remote.lemma_all_neg_filter_empty(is_deleted(local));
    }
    if is_empty_plan(plan) {
        assert forall|i: int| 0 <= i < local.len() implies held_unchanged(
            #[trigger] local[i],
            remote,
        ) by {
            if is_added(remote)(local[i]) {
                local.lemma_filter_contains(is_added(remote), i);
            }
            if is_updated(remote)(local[i]) {
                local.lemma_filter_contains(is_updated(remote), i);
            }
        }
        assert forall|j: int| 0 <= j < remote.len() implies local_has(
            local,
            (#[trigger] remote[j]).relative_path,
        ) by {
            if is_deleted(local)(remote[j]) {
                remote.lemma_filter_contains(is_deleted(local), j);
            }
        }
    }
}

/// Once the store holds exactly the files of a listing, the plan for that
/// listing is empty: a second run with no local change uploads nothing.
pub proof fn lemma_second_run_is_empty(local: Seq<LocalFileView>)
    requires
        has_distinct_paths(local),
    ensures
        is_empty_plan(planned(local, mirror(local))),
{
    let remote = mirror(local);
    assert forall|i: int, j: int| 0 <= i < j < remote.len() implies (#[trigger] remote[i]).relative_path
        != (#[trigger] remote[j]).relative_path by {
        assert(local[i].relative_path != local[j].relative_path);
    }
    assert forall|i: int| 0 <= i < local.len() implies held_unchanged(#[trigger] local[i], remote) by {
        lemma_lookup_of_entry(remote, i);
    }
    assert forall|j: int| 0 <= j < remote.len() implies local_has(
        local,
        (#[trigger] remote[j]).relative_path,
    ) by {
        assert(local[j].relative_path == remote[j].relative_path);
    }
    lemma_plan_is_empty_iff_in_sync(local, remote);
}

/// The same for the scan of a walk: once the store holds exactly what the
/// scan listed, a second scan of the unchanged tree gives an empty plan.
pub proof fn lemma_second_run_of_a_scan_is_empty(root: Seq<char>, entries: Seq<WalkEntry>)
    requires
        is_walk_of(root, entries),
    ensures
        is_empty_plan(planned(scanned(root, entries), mirror(scanned(root, entries)))),
{
    lemma_scan_has_distinct_paths(root, entries);
    lemma_second_run_is_empty(scanned(root, entries));
}

} // verus!
