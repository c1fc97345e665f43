//! The local tree: which of the entries that a directory walk yields are
//! files of the package, and under which path each is known to the store.
//!
//! The walk itself, with its ignore rules, and the reading of each file are
//! the caller's. The entries come in the order of the walk, each with its
//! path as the walk gave it and, for a file, with its bytes or the reason
//! why they could not be read.

use vstd::prelude::*;
use vstd::slice::slice_to_vec;
use crate::hash::{fingerprint, generate_hash};
use crate::text::{chars_of, joined, same_chars, starts_with, string_of};

verus! {

/// A file of the package: its path below the package root and its bytes.
#[derive(Debug)]
pub struct LocalFile {
    pub relative_path: String,
    pub content: Vec<u8>,
}

/// What a `LocalFile` holds.
pub struct LocalFileView {
    pub relative_path: Seq<char>,
    pub content: Seq<u8>,
}

impl View for LocalFile {
    type V = LocalFileView;

    open spec fn view(&self) -> LocalFileView {
        LocalFileView { relative_path: self.relative_path@, content: self.content@ }
    }
}

/// What the store is told of a file: its name, fingerprint and size.
#[derive(Debug)]
pub struct ContentToUpload {
    pub file_name: String,
    pub sha256_hash: String,
    pub file_size: usize,
}

/// What a `ContentToUpload` holds.
pub struct ContentToUploadView {
    pub file_name: Seq<char>,
    pub sha256_hash: Seq<char>,
    pub file_size: nat,
}

impl View for ContentToUpload {
    type V = ContentToUploadView;

    open spec fn view(&self) -> ContentToUploadView {
        ContentToUploadView {
            file_name: self.file_name@,
            sha256_hash: self.sha256_hash@,
            file_size: self.file_size as nat,
        }
    }
}

/// One entry of a directory walk.
#[derive(Debug)]
pub enum WalkEntry {
    /// A directory.
    Directory { path: String },
    /// A file and its bytes.
    File { path: String, content: Vec<u8> },
    /// A file that could not be opened or read, and why.
    Unreadable { path: String, reason: String },
}

/// Why a scan failed.
#[derive(Debug)]
pub enum GetLocalFilesError {
    /// A file could not be read: the reason, then the file's path.
    CantReadFile(String, String),
}

/// The views of a list of local files.
pub open spec fn local_views(files: Seq<LocalFile>) -> Seq<LocalFileView> {
    files.map_values(|f: LocalFile| f@)
}

/// The views of a list of file descriptions.
pub open spec fn upload_views(files: Seq<ContentToUpload>) -> Seq<ContentToUploadView> {
    files.map_values(|f: ContentToUpload| f@)
}

/// `s` without `prefix` at its start, if it starts with it.
pub open spec fn strip_prefix(s: Seq<char>, prefix: Seq<char>) -> Seq<char> {
    if prefix.is_prefix_of(s) {
        s.skip(prefix.len() as int)
    } else {
        s
    }
}

/// `s` without the run of `c` at its start.
pub open spec fn strip_leading(s: Seq<char>, c: char) -> Seq<char>
    decreases s.len(),
{
    if s.len() > 0 && s[0] == c {
        strip_leading(s.drop_first(), c)
    } else {
        s
    }
}

/// The path of a walked file below `root`: the root is taken off its start,
/// then every separator that leads what is left.
pub open spec fn relative(root: Seq<char>, path: Seq<char>) -> Seq<char> {
    strip_leading(strip_prefix(path, root), '/')
}

/// Whether a relative path belongs to what is never uploaded, whatever the
/// ignore rules say: the version-control directory, the CI configuration
/// directory and the ignore file itself.
pub open spec fn is_structural(rel: Seq<char>) -> bool {
    ||| ".git/"@.is_prefix_of(rel)
    ||| ".github/"@.is_prefix_of(rel)
    ||| rel == ".gitignore"@
}

/// The file that a walk entry contributes to a scan of `root`, if any.
pub open spec fn listed(root: Seq<char>, entry: WalkEntry) -> Option<LocalFileView> {
    match entry {
        WalkEntry::File { path, content } => {
            if is_structural(relative(root, path@)) {
                None
            } else {
                Some(LocalFileView { relative_path: relative(root, path@), content: content@ })
            }
        },
        _ => None,
    }
}

/// The files of a scan of `root` whose walk gave `entries`, in walk order.
pub open spec fn scanned(root: Seq<char>, entries: Seq<WalkEntry>) -> Seq<LocalFileView> {
    entries.filter_map(|e: WalkEntry| listed(root, e))
}

/// Whether `entries[at]` is the first entry that could not be read.
pub open spec fn first_unreadable(entries: Seq<WalkEntry>, at: int) -> bool {
    &&& 0 <= at < entries.len()
    &&& entries[at] is Unreadable
    &&& forall|j: int| 0 <= j < at ==> !(#[trigger] entries[j] is Unreadable)
}

/// Whether `entry` could not be read, for `reason`, at `path`.
pub open spec fn unreadable_with(entry: WalkEntry, reason: Seq<char>, path: Seq<char>) -> bool {
    match entry {
        WalkEntry::Unreadable { path: p, reason: r } => p@ == path && r@ == reason,
        _ => false,
    }
}

/// Whether `error` names the first entry that could not be read.
pub open spec fn reports_first_unreadable(entries: Seq<WalkEntry>, error: GetLocalFilesError) -> bool {
    match error {
        GetLocalFilesError::CantReadFile(reason, path) => exists|at: int|
            first_unreadable(entries, at) && #[trigger] unreadable_with(entries[at], reason@, path@),
    }
}

/// Whether every entry could be read.
pub open spec fn all_readable(entries: Seq<WalkEntry>) -> bool {
    forall|j: int| 0 <= j < entries.len() ==> !(#[trigger] entries[j] is Unreadable)
}

/// What the store is told of a local file.
pub open spec fn described(file: LocalFileView) -> ContentToUploadView {
    ContentToUploadView {
        file_name: file.relative_path,
        sha256_hash: fingerprint(file.content),
        file_size: file.content.len(),
    }
}

/// Computes the path of a walked file below `root`.
pub fn relative_path(root: &str, path: &str) -> (rel: String)
    ensures
        rel@ == relative(root@, path@),
{
    let root_chars = chars_of(root);
    let path_chars = chars_of(path);
    let rooted = starts_with(&path_chars, &root_chars);
    let mut start: usize = if rooted {
        root_chars.len()
    } else {
        0
    };
    assert(path_chars@.skip(start as int) == strip_prefix(path@, root@));
    while start < path_chars.len() && path_chars[start] == '/'
        invariant
            start <= path_chars@.len(),
            strip_leading(path_chars@.skip(start as int), '/') == relative(root@, path@),
        decreases path_chars@.len() - start,
    {
        assert(path_chars@.skip(start as int).drop_first() == path_chars@.skip(start + 1));
        start += 1;
    }
    string_of(&path_chars, start, path_chars.len())
}

/// Tests whether a relative path is one of those that are never uploaded.
pub fn is_structural_exclusion(rel: &str) -> (excluded: bool)
    ensures
        excluded == is_structural(rel@),
{
    let chars = chars_of(rel);
    let git_dir = chars_of(".git/");
    let ci_dir = chars_of(".github/");
    let ignore_file = chars_of(".gitignore");
    starts_with(&chars, &git_dir) || starts_with(&chars, &ci_dir) || same_chars(
        &chars,
        &ignore_file,
    )
}

/// Scans the package at `root` from the entries of its walk.
///
/// Fails on the first entry that could not be read, wherever it lies, with
/// that entry's reason and path. Otherwise the files come in walk order:
/// directories are left out, and so is what `is_structural` names.
pub fn scan(root: &str, entries: &Vec<WalkEntry>) -> (result: Result<
    Vec<LocalFile>,
    GetLocalFilesError,
>)
    ensures
        match result {
            Ok(files) => all_readable(entries@) && local_views(files@) == scanned(
                root@,
                entries@,
            ),
            Err(error) => reports_first_unreadable(entries@, error),
        },
{
    let mut files: Vec<LocalFile> = Vec::new();
    let mut i: usize = 0;
    while i < entries.len()
        invariant
            i <= entries@.len(),
            all_readable(entries@.take(i as int)),
            local_views(files@) == scanned(root@, entries@.take(i as int)),
        decreases entries@.len() - i,
    {
        proof {
            assert(entries@.take(i + 1).drop_last() == entries@.take(i as int));
        }
        match &entries[i] {
            WalkEntry::Directory { path } => {},
            WalkEntry::Unreadable { path, reason } => {
                assert(first_unreadable(entries@, i as int)) by {
                    assert forall|j: int| 0 <= j < i implies !(#[trigger] entries@[j] is Unreadable) by {
                        assert(entries@.take(i as int)[j] == entries@[j]);
                    }
                }
                let reason = reason.clone();
                let path = path.clone();
                assert(unreadable_with(entries@[i as int], reason@, path@));
                let error = GetLocalFilesError::CantReadFile(reason, path);
                assert(reports_first_unreadable(entries@, error)) by {
                    assert(error matches GetLocalFilesError::CantReadFile(r, p) && r == reason && p
                        == path);
                }
                return Err(error);
            },
            WalkEntry::File { path, content } => {
                let rel = relative_path(root, path.as_str());
                if !is_structural_exclusion(rel.as_str()) {
                    let ghost before = files@;
                    files.push(LocalFile { relative_path: rel, content: slice_to_vec(content.as_slice()) });
                    assert(local_views(files@) == local_views(before).push(files@.last()@));
                }
            },
        }
        assert(all_readable(entries@.take(i + 1))) by {
            assert forall|j: int| 0 <= j < i + 1 implies !(#[trigger] entries@.take(i + 1)[j] is Unreadable) by {
                if j < i {
                    assert(entries@.take(i as int)[j] == entries@[j]);
                }
            }
        }
        i += 1;
    }
    assert(entries@.take(i as int) == entries@);
    Ok(files)
}

/// Describes a local file to the store.
pub fn describe(file: &LocalFile) -> (description: ContentToUpload)
    ensures
        description@ == described(file@),
{
    ContentToUpload {
        file_name: file.relative_path.clone(),
        sha256_hash: generate_hash(file.content.as_slice()),
        file_size: file.content.len(),
    }
}

/// Describes each of `files` to the store, in order.
pub fn describe_all(files: &Vec<LocalFile>) -> (descriptions: Vec<ContentToUpload>)
    ensures
        upload_views(descriptions@) == local_views(files@).map_values(
            |f: LocalFileView| described(f),
        ),
{
    let mut descriptions: Vec<ContentToUpload> = Vec::new();
    let mut i: usize = 0;
    while i < files.len()
        invariant
            i <= files@.len(),
            descriptions@.len() == i,
            forall|j: int| 0 <= j < i ==> (#[trigger] descriptions@[j])@ == described(files@[j]@),
        decreases files@.len() - i,
    {
        descriptions.push(describe(&files[i]));
        i += 1;
    }
    assert(upload_views(descriptions@) =~= local_views(files@).map_values(
        |f: LocalFileView| described(f),
    ));
    descriptions
}

/// Lists what the store is told of the package at `current_dir`: the files
/// of `scan`, each with its name, fingerprint and size.
pub fn get_local_files(current_dir: &str, entries: &Vec<WalkEntry>) -> (result: Result<
    Vec<ContentToUpload>,
    GetLocalFilesError,
>)
    ensures
        match result {
            Ok(files) => all_readable(entries@) && upload_views(files@) == scanned(
                current_dir@,
                entries@,
            ).map_values(|f: LocalFileView| described(f)),
            Err(error) => reports_first_unreadable(entries@, error),
        },
{
    match scan(current_dir, entries) {
        Ok(files) => Ok(describe_all(&files)),
        Err(error) => Err(error),
    }
}

/// Every file of a scan comes from a file of the walk, under that file's
/// relative path and with its bytes, and is none of those that are never
/// uploaded. A directory gives no file.
pub proof fn lemma_scanned_comes_from_a_file(root: Seq<char>, entries: Seq<WalkEntry>, k: int)
    requires
        0 <= k < scanned(root, entries).len(),
    ensures
        !is_structural(scanned(root, entries)[k].relative_path),
        exists|i: int|
            0 <= i < entries.len() && (#[trigger] entries[i]) is File && listed(root, entries[i])
                == Some(scanned(root, entries)[k]),
{
    let file = scanned(root, entries)[k];
    let take = |e: WalkEntry| listed(root, e);
    assert(entries.filter_map(take).contains(file));
    entries.lemma_filter_map_contains(take, file);
    let entry = choose|e: WalkEntry| #[trigger] entries.contains(e) && take(e) == Some(file);
    let i = choose|i: int| 0 <= i < entries.len() && entries[i] == entry;
    assert(entries[i] is File && listed(root, entries[i]) == Some(file));
}

/// A relative path never begins with a separator.
pub proof fn lemma_relative_has_no_leading_separator(root: Seq<char>, path: Seq<char>)
    ensures
        relative(root, path).len() > 0 ==> relative(root, path)[0] != '/',
{
    lemma_strip_leading_stops(strip_prefix(path, root), '/');
}

proof fn lemma_strip_leading_stops(s: Seq<char>, c: char)
    ensures
        strip_leading(s, c).len() > 0 ==> strip_leading(s, c)[0] != c,
    decreases s.len(),
{
    if s.len() > 0 && s[0] == c {
        lemma_strip_leading_stops(s.drop_first(), c);
    }
}

proof fn lemma_strip_leading_run(run: Seq<char>, rest: Seq<char>, c: char)
    requires
        forall|i: int| 0 <= i < run.len() ==> run[i] == c,
        rest.len() > 0 ==> rest[0] != c,
    ensures
        strip_leading(run + rest, c) == rest,
    decreases run.len(),
{
    if run.len() == 0 {
        assert(run + rest == rest);
    } else {
        assert((run + rest).drop_first() == run.drop_first() + rest);
        lemma_strip_leading_run(run.drop_first(), rest, c);
    }
}

/// A file that lies at `rest` below `root` has the relative path `rest`,
/// whether the walk joined the two with one separator, with several, or,
/// where `root` already ends in one, with none.
pub proof fn lemma_relative_of_joined(root: Seq<char>, separators: Seq<char>, rest: Seq<char>)
    requires
        forall|i: int| 0 <= i < separators.len() ==> separators[i] == '/',
        rest.len() > 0 ==> rest[0] != '/',
    ensures
        relative(root, root + separators + rest) == rest,
{
    let path = root + separators + rest;
    assert(root.is_prefix_of(path));
    assert(path.skip(root.len() as int) == separators + rest);
    lemma_strip_leading_run(separators, rest, '/');
}

/// The relative path undoes the join of a root and a path below it, with
/// or without a separator at the end of the root.
pub proof fn lemma_relative_undoes_join(root: Seq<char>, rest: Seq<char>)
    requires
        rest.len() > 0 ==> rest[0] != '/',
    ensures
        relative(root, joined(root, rest)) == rest,
{
    if root.len() == 0 || root.last() == '/' {
        assert(root + rest == root + Seq::<char>::empty() + rest);
        lemma_relative_of_joined(root, Seq::empty(), rest);
    } else {
        lemma_relative_of_joined(root, seq!['/'], rest);
    }
}

/// Whether `entries` may be the walk of `root`: every file's path is the
/// root joined with a path below it, and no two files share a path.
pub open spec fn is_walk_of(root: Seq<char>, entries: Seq<WalkEntry>) -> bool {
    &&& forall|i: int|
        0 <= i < entries.len() && (#[trigger] entries[i]) is File ==> exists|rest: Seq<char>|
            (rest.len() > 0 ==> rest[0] != '/') && entries[i]->File_path@ == #[trigger] joined(
                root,
                rest,
            )
    &&& forall|i: int, j: int|
        0 <= i < j < entries.len() && (#[trigger] entries[i]) is File && (
        #[trigger] entries[j]) is File ==> entries[i]->File_path@ != entries[j]->File_path@
}

/// Whether no two files of a listing share a path.
pub open spec fn has_distinct_paths(files: Seq<LocalFileView>) -> bool {
    forall|i: int, j: int|
        0 <= i < j < files.len() ==> (#[trigger] files[i]).relative_path != (
        #[trigger] files[j]).relative_path
}

proof fn lemma_listed_path_is_below(root: Seq<char>, entries: Seq<WalkEntry>, i: int)
    requires
        is_walk_of(root, entries),
        0 <= i < entries.len(),
        entries[i] is File,
    ensures
        entries[i]->File_path@ == joined(root, relative(root, entries[i]->File_path@)),
{
    let rest = choose|rest: Seq<char>|
        (rest.len() > 0 ==> rest[0] != '/') && entries[i]->File_path@ == #[trigger] joined(
            root,
            rest,
        );
    lemma_relative_undoes_join(root, rest);
}

/// The scan of a walk lists no path twice.
pub proof fn lemma_scan_has_distinct_paths(root: Seq<char>, entries: Seq<WalkEntry>)
    requires
        is_walk_of(root, entries),
    ensures
        has_distinct_paths(scanned(root, entries)),
    decreases entries.len(),
{
    let take = |e: WalkEntry| listed(root, e);
    if entries.len() > 0 {
        let front = entries.drop_last();
        let n = entries.len() - 1;
        assert(is_walk_of(root, front)) by {
            assert forall|i: int| 0 <= i < front.len() && (#[trigger] front[i]) is File implies exists|
                rest: Seq<char>,
            |
                (rest.len() > 0 ==> rest[0] != '/') && front[i]->File_path@ == #[trigger] joined(
                    root,
                    rest,
                ) by {
                assert(entries[i] is File);
            }
            assert forall|i: int, j: int|
                0 <= i < j < front.len() && (#[trigger] front[i]) is File && (
                #[trigger] front[j]) is File implies front[i]->File_path@ != front[j]->File_path@ by {
                assert(entries[i] is File && entries[j] is File);
            }
        }
        lemma_scan_has_distinct_paths(root, front);
        if listed(root, entries.last()) is Some {
            let files = scanned(root, entries);
            let earlier = scanned(root, front);
            assert(files == earlier + seq![listed(root, entries.last())->0]);
            assert forall|a: int, b: int| 0 <= a < b < files.len() implies (#[trigger] files[a]).relative_path
                != (#[trigger] files[b]).relative_path by {
                if b == files.len() - 1 {
                    assert(earlier.contains(files[a]));
                    front.lemma_filter_map_contains(take, files[a]);
                    let entry = choose|e: WalkEntry| #[trigger]
                        front.contains(e) && take(e) == Some(files[a]);
                    let m = choose|m: int| 0 <= m < front.len() && front[m] == entry;
                    assert(entries[m] is File && entries[n] is File);
                    lemma_listed_path_is_below(root, entries, m);
                    lemma_listed_path_is_below(root, entries, n);
                } else {
                    assert(earlier[a] == files[a] && earlier[b] == files[b]);
                }
            }
        }
    }
}

/// A trailing separator on the root does not change a relative path.
pub proof fn lemma_relative_ignores_trailing_separator(root: Seq<char>, rest: Seq<char>)
    requires
        rest.len() > 0 ==> rest[0] != '/',
    ensures
        relative(root, root + seq!['/'] + rest) == rest,
        relative(root + seq!['/'], root + seq!['/'] + rest) == rest,
{
    lemma_relative_of_joined(root, seq!['/'], rest);
    assert(root + seq!['/'] + rest == root + seq!['/'] + Seq::<char>::empty() + rest);
    lemma_relative_of_joined(root + seq!['/'], Seq::empty(), rest);
}

} // verus!
