use clift::diff::{classify_file, diff, find_fingerprint, has_local_path, Change, UploadPlan};
use clift::hash::generate_hash;
use clift::manifest::{RemoteManifestEntry, RemoteState};
use clift::scan::LocalFile;

fn local(path: &str, content: &[u8]) -> LocalFile {
    LocalFile { relative_path: path.to_string(), content: content.to_vec() }
}

fn remote(path: &str, fingerprint: String) -> RemoteManifestEntry {
    RemoteManifestEntry {
        relative_path: path.to_string(),
        state: RemoteState::Fingerprint(fingerprint),
    }
}

fn remote_content(path: &str, content: &[u8]) -> RemoteManifestEntry {
    RemoteManifestEntry {
        relative_path: path.to_string(),
        state: RemoteState::Content(content.to_vec()),
    }
}

fn added(plan: &UploadPlan) -> Vec<String> {
    plan.to_add.iter().map(|f| f.relative_path.clone()).collect()
}

fn updated(plan: &UploadPlan) -> Vec<String> {
    plan.to_update.iter().map(|f| f.relative_path.clone()).collect()
}

#[test]
fn local_file_alone_is_added() {
    let plan = diff(&vec![local("x.txt", b"hi")], &Vec::new());
    assert_eq!(added(&plan), vec!["x.txt"]);
    assert_eq!(plan.to_add[0].content, b"hi");
    assert!(plan.to_update.is_empty());
    assert!(plan.to_delete.is_empty());
    assert!(!plan.is_empty());
}

#[test]
fn same_content_gives_an_empty_plan() {
    let plan = diff(&vec![local("x.txt", b"hi")], &vec![remote("x.txt", generate_hash(b"hi"))]);
    assert!(plan.to_add.is_empty());
    assert!(plan.to_update.is_empty());
    assert!(plan.to_delete.is_empty());
    assert!(plan.is_empty());
}

#[test]
fn other_content_is_updated() {
    let plan = diff(&vec![local("x.txt", b"bye")], &vec![remote("x.txt", generate_hash(b"hi"))]);
    assert!(plan.to_add.is_empty());
    assert_eq!(updated(&plan), vec!["x.txt"]);
    assert_eq!(plan.to_update[0].content, b"bye");
    assert!(plan.to_delete.is_empty());
    assert!(!plan.is_empty());
}

#[test]
fn remote_file_alone_is_deleted() {
    let plan = diff(&Vec::new(), &vec![remote("y.txt", generate_hash(b"old"))]);
    assert!(plan.to_add.is_empty());
    assert!(plan.to_update.is_empty());
    assert_eq!(plan.to_delete, vec!["y.txt"]);
    assert!(!plan.is_empty());
}

#[test]
fn empty_against_empty_is_empty() {
    let plan = diff(&Vec::new(), &Vec::new());
    assert!(plan.is_empty());
}

#[test]
fn second_run_after_a_sync_is_empty() {
    let files = vec![local("a.txt", b"a"), local("d/b.txt", b"bb"), local("c", b"")];
    let first = diff(&files, &Vec::new());
    assert_eq!(added(&first), vec!["a.txt", "d/b.txt", "c"]);
    let store: Vec<RemoteManifestEntry> =
        files.iter().map(|f| remote(&f.relative_path, generate_hash(&f.content))).collect();
    let second = diff(&files, &store);
    assert!(second.is_empty());
    let third = diff(&files, &store);
    assert!(third.is_empty());
}

#[test]
fn every_missing_path_is_planned_once() {
    let files = vec![local("a", b"1"), local("b", b"2"), local("c", b"3")];
    let store = vec![
        remote("b", generate_hash(b"2")),
        remote("x", generate_hash(b"9")),
        remote("y", generate_hash(b"8")),
    ];
    let plan = diff(&files, &store);
    assert_eq!(added(&plan), vec!["a", "c"]);
    assert!(plan.to_update.is_empty());
    assert_eq!(plan.to_delete, vec!["x", "y"]);
    for p in ["a", "c"] {
        assert_eq!(plan.to_add.iter().filter(|f| f.relative_path == p).count(), 1);
    }
    for p in ["x", "y"] {
        assert_eq!(plan.to_delete.iter().filter(|d| d.as_str() == p).count(), 1);
    }
}

#[test]
fn identical_content_is_in_neither_list() {
    let files = vec![local("same", b"same bytes"), local("new", b"n"), local("changed", b"2")];
    let store =
        vec![remote_content("same", b"same bytes"), remote("changed", generate_hash(b"1"))];
    let plan = diff(&files, &store);
    assert_eq!(added(&plan), vec!["new"]);
    assert_eq!(updated(&plan), vec!["changed"]);
    assert!(!added(&plan).contains(&"same".to_string()));
    assert!(!updated(&plan).contains(&"same".to_string()));
    assert!(plan.to_delete.is_empty());
}

#[test]
fn mixed_plan_keeps_listing_order() {
    let files = vec![
        local("z", b"z2"),
        local("m", b"m"),
        local("a", b"a2"),
        local("k", b"k"),
        local("b", b"b"),
    ];
    let store = vec![
        remote("gone2", generate_hash(b"")),
        remote("a", generate_hash(b"a1")),
        remote("k", generate_hash(b"k")),
        remote("z", generate_hash(b"z1")),
        remote("gone1", generate_hash(b"")),
    ];
    let plan = diff(&files, &store);
    assert_eq!(added(&plan), vec!["m", "b"]);
    assert_eq!(updated(&plan), vec!["z", "a"]);
    assert_eq!(plan.to_delete, vec!["gone2", "gone1"]);
}

#[test]
fn fingerprints_are_compared_without_case() {
    let files = vec![local("x.txt", b"hi")];
    let store = vec![remote("x.txt", generate_hash(b"hi").to_lowercase())];
    assert!(diff(&files, &store).is_empty());
}

#[test]
fn remote_content_is_hashed_before_it_is_compared() {
    let files = vec![local("x.txt", b"hi"), local("y.txt", b"bye")];
    let store = vec![remote_content("x.txt", b"hi"), remote_content("y.txt", b"hi")];
    let plan = diff(&files, &store);
    assert!(plan.to_add.is_empty());
    assert_eq!(updated(&plan), vec!["y.txt"]);
}

#[test]
fn paths_are_compared_exactly() {
    let files = vec![local("A.txt", b"hi")];
    let store = vec![remote("a.txt", generate_hash(b"hi"))];
    let plan = diff(&files, &store);
    assert_eq!(added(&plan), vec!["A.txt"]);
    assert_eq!(plan.to_delete, vec!["a.txt"]);
}

#[test]
fn first_manifest_entry_of_a_path_counts() {
    let store = vec![
        remote("x", generate_hash(b"one")),
        remote("x", generate_hash(b"two")),
    ];
    assert_eq!(find_fingerprint(&store, &"x".to_string()), Some(generate_hash(b"one")));
    assert_eq!(find_fingerprint(&store, &"y".to_string()), None);
    assert!(diff(&vec![local("x", b"one")], &store).is_empty());
    assert_eq!(updated(&diff(&vec![local("x", b"two")], &store)), vec!["x"]);
}

#[test]
fn classify_one_file() {
    let store = vec![remote("x", generate_hash(b"hi"))];
    assert!(matches!(classify_file(&local("x", b"hi"), &store), Change::Unchanged));
    assert!(matches!(classify_file(&local("x", b"bye"), &store), Change::Update));
    assert!(matches!(classify_file(&local("y", b"hi"), &store), Change::Add));
}

#[test]
fn local_path_lookup() {
    let files = vec![local("a", b""), local("b/c", b"")];
    assert!(has_local_path(&files, &"a".to_string()));
    assert!(has_local_path(&files, &"b/c".to_string()));
    assert!(!has_local_path(&files, &"b".to_string()));
    assert!(!has_local_path(&Vec::new(), &"a".to_string()));
}
