use clift::commit_upload::CommitUploadError;
use clift::error::UploadError;
use clift::hash::generate_hash;
use clift::initiate_upload::{
    InitiateUploadError, InitiateUploadResponse, PreSignedRequest, Session,
};
use clift::manifest::{ManifestFetchError, ManifestProtocol, RemoteManifestEntry, RemoteState};
use clift::scan::{GetLocalFilesError, LocalFile};
use clift::site::{FastnFile, GetSiteNameFromFtdError};
use clift::sync::{
    prepare, tejar_file, upload, upload_, upload_files, Config, FileStatus, Invocation,
    SiteSource, UploadAction, UploadEvent, UploadState,
};
use clift::token::{GithubActionIdTokenRequestError, UpdateToken, UpdateTokenError, VarError};
use clift::uploader::{TransportDescriptor, Uploader, UploaderError};
use std::collections::HashMap;

fn config(debug_folder: Option<&str>) -> Config {
    Config {
        api_origin: "https://api".to_string(),
        protocol: ManifestProtocol::Fingerprints,
        debug_folder: debug_folder.map(str::to_string),
    }
}

fn local(path: &str, content: &[u8]) -> LocalFile {
    LocalFile { relative_path: path.to_string(), content: content.to_vec() }
}

fn remote(path: &str, content: &[u8]) -> RemoteManifestEntry {
    RemoteManifestEntry {
        relative_path: path.to_string(),
        state: RemoteState::Fingerprint(generate_hash(content)),
    }
}

fn names(v: &[&str]) -> Vec<String> {
    v.iter().map(|s| s.to_string()).collect()
}

fn data(new_files: &[&str], updated_files: &[&str]) -> InitiateUploadResponse {
    InitiateUploadResponse {
        new_files: names(new_files),
        updated_files: names(updated_files),
        upload_session_id: 11,
        tejar_file_id: 22,
        pre_signed_request: PreSignedRequest {
            url: "https://bucket/key".to_string(),
            method: "PUT".to_string(),
            headers: HashMap::new(),
        },
    }
}

fn uploading(added: &[&str], updated: &[&str]) -> UploadState {
    UploadState::Uploading {
        session: Session { upload_session_id: 11, tejar_file_id: 22 },
        added: names(added),
        updated: names(updated),
    }
}

fn to_initiating(cfg: &Config) -> UploadState {
    let (state, _) = upload(cfg, UploadState::Idle, UploadEvent::Start);
    let (state, _) = upload(cfg, state, UploadEvent::Scanned(Ok(vec![local("x.txt", b"hi")])));
    let (state, _) = upload(cfg, state, UploadEvent::Fetched(Ok(Vec::new())));
    assert!(matches!(state, UploadState::Initiating { .. }));
    state
}

#[test]
fn run_that_uploads_and_commits() {
    let cfg = config(None);
    let (state, action) = upload(&cfg, UploadState::Idle, UploadEvent::Start);
    assert!(matches!(state, UploadState::Scanning));
    assert!(matches!(action, UploadAction::Scan));

    let files = vec![local("new.txt", b"n"), local("changed.txt", b"2"), local("same.txt", b"s")];
    let (state, action) = upload(&cfg, state, UploadEvent::Scanned(Ok(files)));
    assert!(matches!(&state, UploadState::Diffing { local } if local.len() == 3));
    assert!(matches!(action, UploadAction::FetchManifest));

    let manifest = vec![remote("changed.txt", b"1"), remote("same.txt", b"s"), remote("old", b"o")];
    let (state, action) = upload(&cfg, state, UploadEvent::Fetched(Ok(manifest)));
    match &state {
        UploadState::Initiating { plan } => {
            assert_eq!(plan.to_add.len(), 1);
            assert_eq!(plan.to_add[0].relative_path, "new.txt");
            assert_eq!(plan.to_update.len(), 1);
            assert_eq!(plan.to_update[0].relative_path, "changed.txt");
            assert_eq!(plan.to_delete, vec!["old"]);
        }
        _ => panic!("the run did not go on to a session"),
    }
    match action {
        UploadAction::Initiate(listing) => {
            assert_eq!(listing.len(), 3);
            assert_eq!(listing[0].file_name, "new.txt");
            assert_eq!(listing[0].sha256_hash, generate_hash(b"n"));
            assert_eq!(listing[0].file_size, 1);
            assert_eq!(listing[1].file_name, "changed.txt");
            assert_eq!(listing[2].file_name, "same.txt");
        }
        _ => panic!("no session was asked for"),
    }

    let answer = data(&["new.txt"], &["changed.txt"]);
    let (state, action) = upload(&cfg, state, UploadEvent::Initiated(Ok(answer)));
    match action {
        UploadAction::OpenSink(TransportDescriptor::Presigned(request)) => {
            assert_eq!(request.url, "https://bucket/key");
            assert_eq!(request.method, "PUT");
        }
        _ => panic!("the sink was not opened for the store"),
    }

    let (state, action) = upload(&cfg, state, UploadEvent::Sink(Ok(())));
    match action {
        UploadAction::Upload { file_name, status } => {
            assert_eq!(file_name, "new.txt");
            assert_eq!(status, FileStatus::Added);
        }
        _ => panic!("no file was handed over"),
    }
    let (state, action) = upload(&cfg, state, UploadEvent::Sink(Ok(())));
    match action {
        UploadAction::Upload { file_name, status } => {
            assert_eq!(file_name, "changed.txt");
            assert_eq!(status, FileStatus::Updated);
        }
        _ => panic!("no file was handed over"),
    }
    let (state, action) = upload(&cfg, state, UploadEvent::Sink(Ok(())));
    assert!(matches!(action, UploadAction::CommitSink));
    assert!(matches!(state, UploadState::Committing { sink_committed: false, .. }));

    let (state, action) = upload(&cfg, state, UploadEvent::Sink(Ok(())));
    match action {
        UploadAction::CommitSession(session) => {
            assert_eq!(session.upload_session_id, 11);
            assert_eq!(session.tejar_file_id, 22);
        }
        _ => panic!("the session was not committed"),
    }
    assert!(matches!(state, UploadState::Committing { sink_committed: true, .. }));

    let (state, action) = upload(&cfg, state, UploadEvent::SessionCommitted(Ok(())));
    assert!(matches!(state, UploadState::Done));
    assert!(matches!(action, UploadAction::Stop));
}

#[test]
fn run_with_nothing_to_do() {
    let cfg = config(None);
    let (state, _) = upload(&cfg, UploadState::Idle, UploadEvent::Start);
    let (state, _) = upload(&cfg, state, UploadEvent::Scanned(Ok(vec![local("x.txt", b"hi")])));
    let (state, action) = upload(&cfg, state, UploadEvent::Fetched(Ok(vec![remote("x.txt", b"hi")])));
    assert!(matches!(state, UploadState::NoChanges));
    assert!(matches!(action, UploadAction::Stop));
    let (state, action) = upload(&cfg, state, UploadEvent::Sink(Ok(())));
    assert!(matches!(state, UploadState::NoChanges));
    assert!(matches!(action, UploadAction::Stop));
}

#[test]
fn run_of_an_empty_package_against_an_empty_store() {
    let cfg = config(None);
    let (state, _) = upload(&cfg, UploadState::Idle, UploadEvent::Start);
    let (state, _) = upload(&cfg, state, UploadEvent::Scanned(Ok(Vec::new())));
    let (state, action) = upload(&cfg, state, UploadEvent::Fetched(Ok(Vec::new())));
    assert!(matches!(state, UploadState::NoChanges));
    assert!(matches!(action, UploadAction::Stop));
}

#[test]
fn run_with_only_deletions_asks_for_a_session() {
    let cfg = config(None);
    let (state, _) = upload(&cfg, UploadState::Idle, UploadEvent::Start);
    let (state, _) = upload(&cfg, state, UploadEvent::Scanned(Ok(Vec::new())));
    let (state, action) = upload(&cfg, state, UploadEvent::Fetched(Ok(vec![remote("y.txt", b"old")])));
    assert!(matches!(&state, UploadState::Initiating { plan } if plan.to_delete == vec!["y.txt"]));
    assert!(matches!(action, UploadAction::Initiate(listing) if listing.is_empty()));
}

#[test]
fn sink_fails_midway_and_nothing_is_committed() {
    let cfg = config(None);
    let state = to_initiating(&cfg);
    let answer = data(&["a"], &["u1", "u2", "u3"]);
    let (state, action) = upload(&cfg, state, UploadEvent::Initiated(Ok(answer)));
    assert!(matches!(action, UploadAction::OpenSink(_)));
    let (state, action) = upload(&cfg, state, UploadEvent::Sink(Ok(())));
    assert!(matches!(&action, UploadAction::Upload { file_name, .. } if file_name == "a"));
    let (state, action) = upload(&cfg, state, UploadEvent::Sink(Ok(())));
    assert!(matches!(&action, UploadAction::Upload { file_name, status: FileStatus::Updated } if file_name == "u1"));
    let (state, action) = upload(&cfg, state, UploadEvent::Sink(Ok(())));
    assert!(matches!(&action, UploadAction::Upload { file_name, .. } if file_name == "u2"));

    let failure = UploaderError::IOError("disk error".to_string());
    let (state, action) = upload(&cfg, state, UploadEvent::Sink(Err(failure)));
    assert!(matches!(action, UploadAction::Stop));
    match &state {
        UploadState::Failed(UploadError::CantUpload(UploaderError::IOError(why))) => {
            assert_eq!(why, "disk error")
        }
        _ => panic!("the run did not fail with the sink's error"),
    }

    let mut state = state;
    let later = [
        UploadEvent::Sink(Ok(())),
        UploadEvent::Sink(Ok(())),
        UploadEvent::SessionCommitted(Ok(())),
        UploadEvent::Start,
        UploadEvent::Sink(Ok(())),
    ];
    for event in later {
        let (next, action) = upload(&cfg, state, event);
        assert!(matches!(action, UploadAction::Stop));
        assert!(!matches!(action, UploadAction::CommitSink | UploadAction::CommitSession(_)));
        assert!(matches!(
            &next,
            UploadState::Failed(UploadError::CantUpload(UploaderError::IOError(_)))
        ));
        state = next;
    }
}

#[test]
fn sink_fails_midway_with_a_real_sink() {
    let cfg = config(None);
    let state = to_initiating(&cfg);
    let (mut state, mut action) = upload(&cfg, state, UploadEvent::Initiated(Ok(data(&[], &["u1", "u2", "u3"]))));
    let mut sink = None;
    let mut committed = false;
    let mut handed = Vec::new();
    loop {
        let event = match action {
            UploadAction::OpenSink(descriptor) => {
                sink = Some(Uploader::open(descriptor, Ok(())).unwrap());
                UploadEvent::Sink(Ok(()))
            }
            UploadAction::Upload { file_name, .. } => {
                let read = if file_name == "u2" {
                    Err("unreadable".to_string())
                } else {
                    Ok(file_name.clone().into_bytes())
                };
                handed.push(file_name);
                UploadEvent::Sink(sink.as_mut().unwrap().upload(read).map(|_| ()))
            }
            UploadAction::CommitSink | UploadAction::CommitSession(_) => {
                committed = true;
                UploadEvent::Sink(Ok(()))
            }
            UploadAction::Stop => break,
            _ => panic!("the run went back"),
        };
        let step = upload(&cfg, state, event);
        state = step.0;
        action = step.1;
    }
    assert_eq!(handed, vec!["u1", "u2"]);
    assert!(!committed);
    assert!(matches!(state, UploadState::Failed(UploadError::CantUpload(UploaderError::IOError(_)))));
    assert!(matches!(sink, Some(Uploader::S3(_, staged)) if staged == b"u1"));
}

#[test]
fn scan_failure_ends_the_run() {
    let cfg = config(None);
    let (state, _) = upload(&cfg, UploadState::Idle, UploadEvent::Start);
    let error = GetLocalFilesError::CantReadFile("denied".to_string(), "pkg/a".to_string());
    let (state, action) = upload(&cfg, state, UploadEvent::Scanned(Err(error)));
    assert!(matches!(action, UploadAction::Stop));
    match state {
        UploadState::Failed(UploadError::CantInitiateUpload(
            InitiateUploadError::CantGetLocalFiles(GetLocalFilesError::CantReadFile(why, path)),
        )) => {
            assert_eq!(why, "denied");
            assert_eq!(path, "pkg/a");
        }
        _ => panic!("the run did not fail with the scan's error"),
    }
}

#[test]
fn manifest_failure_ends_the_run() {
    let cfg = config(None);
    let (state, _) = upload(&cfg, UploadState::Idle, UploadEvent::Start);
    let (state, _) = upload(&cfg, state, UploadEvent::Scanned(Ok(vec![local("a", b"")])));
    let error = ManifestFetchError::TransportError("dns".to_string());
    let (state, action) = upload(&cfg, state, UploadEvent::Fetched(Err(error)));
    assert!(matches!(action, UploadAction::Stop));
    assert!(matches!(
        state,
        UploadState::Failed(UploadError::CantFetchManifest(ManifestFetchError::TransportError(_)))
    ));
}

#[test]
fn refused_session_ends_the_run() {
    let cfg = config(None);
    let state = to_initiating(&cfg);
    let error = InitiateUploadError::APIError("no".to_string());
    let (state, action) = upload(&cfg, state, UploadEvent::Initiated(Err(error)));
    assert!(matches!(action, UploadAction::Stop));
    assert!(matches!(
        state,
        UploadState::Failed(UploadError::CantInitiateUpload(InitiateUploadError::APIError(_)))
    ));
}

#[test]
fn sink_that_cannot_be_opened_ends_the_run() {
    let cfg = config(Some("/tmp/debug"));
    let state = to_initiating(&cfg);
    let (state, _) = upload(&cfg, state, UploadEvent::Initiated(Ok(data(&["a"], &[]))));
    let error = UploaderError::IOError("Permission denied".to_string());
    let (state, action) = upload(&cfg, state, UploadEvent::Sink(Err(error)));
    assert!(matches!(action, UploadAction::Stop));
    assert!(matches!(state, UploadState::Failed(UploadError::CantUpload(_))));
}

#[test]
fn failed_sink_commit_never_commits_the_session() {
    let cfg = config(None);
    let (state, action) = upload(&cfg, uploading(&[], &[]), UploadEvent::Sink(Ok(())));
    assert!(matches!(action, UploadAction::CommitSink));
    let error = UploaderError::Rejected(403);
    let (state, action) = upload(&cfg, state, UploadEvent::Sink(Err(error)));
    assert!(matches!(action, UploadAction::Stop));
    assert!(matches!(
        &state,
        UploadState::Failed(UploadError::CantUpload(UploaderError::Rejected(403)))
    ));
    let (_, action) = upload(&cfg, state, UploadEvent::Sink(Ok(())));
    assert!(matches!(action, UploadAction::Stop));
}

#[test]
fn failed_session_commit_ends_the_run() {
    let cfg = config(None);
    let state = UploadState::Committing {
        session: Session { upload_session_id: 1, tejar_file_id: 2 },
        sink_committed: true,
    };
    let error = CommitUploadError::Rejected(500);
    let (state, action) = upload(&cfg, state, UploadEvent::SessionCommitted(Err(error)));
    assert!(matches!(action, UploadAction::Stop));
    assert!(matches!(
        state,
        UploadState::Failed(UploadError::CantCommitUpload(CommitUploadError::Rejected(500)))
    ));
}

#[test]
fn event_out_of_turn_ends_the_run() {
    let cfg = config(None);
    let (state, action) = upload(&cfg, UploadState::Idle, UploadEvent::Sink(Ok(())));
    assert!(matches!(state, UploadState::Failed(UploadError::OutOfTurn)));
    assert!(matches!(action, UploadAction::Stop));
    let (state, _) = upload(&cfg, UploadState::Scanning, UploadEvent::Start);
    assert!(matches!(state, UploadState::Failed(UploadError::OutOfTurn)));
    let (state, _) = upload(&cfg, uploading(&["a"], &[]), UploadEvent::SessionCommitted(Ok(())));
    assert!(matches!(state, UploadState::Failed(UploadError::OutOfTurn)));
    let committing = UploadState::Committing {
        session: Session { upload_session_id: 1, tejar_file_id: 2 },
        sink_committed: false,
    };
    let (state, action) = upload(&cfg, committing, UploadEvent::SessionCommitted(Ok(())));
    assert!(matches!(state, UploadState::Failed(UploadError::OutOfTurn)));
    assert!(matches!(action, UploadAction::Stop));
    let committing = UploadState::Committing {
        session: Session { upload_session_id: 1, tejar_file_id: 2 },
        sink_committed: true,
    };
    let (state, _) = upload(&cfg, committing, UploadEvent::Sink(Ok(())));
    assert!(matches!(state, UploadState::Failed(UploadError::OutOfTurn)));
}

#[test]
fn finished_run_stays_finished() {
    let cfg = config(None);
    let (state, action) = upload(&cfg, UploadState::Done, UploadEvent::Start);
    assert!(matches!(state, UploadState::Done));
    assert!(matches!(action, UploadAction::Stop));
    let (state, action) = upload(&cfg, state, UploadEvent::Sink(Err(UploaderError::S3("x".to_string()))));
    assert!(matches!(state, UploadState::Done));
    assert!(matches!(action, UploadAction::Stop));
}

#[test]
fn files_go_to_the_sink_added_first_then_updated() {
    let session = Session { upload_session_id: 5, tejar_file_id: 6 };
    let (state, action) = upload_files(session, names(&["a1", "a2"]), names(&["u1"]));
    assert!(matches!(&action, UploadAction::Upload { file_name, status: FileStatus::Added } if file_name == "a1"));
    match state {
        UploadState::Uploading { session: s, added, updated } => {
            assert_eq!(s, session);
            assert_eq!(added, vec!["a2"]);
            assert_eq!(updated, vec!["u1"]);
        }
        _ => panic!("the upload ended early"),
    }
    let (state, action) = upload_files(session, Vec::new(), names(&["u1", "u2"]));
    assert!(matches!(&action, UploadAction::Upload { file_name, status: FileStatus::Updated } if file_name == "u1"));
    assert!(matches!(&state, UploadState::Uploading { added, updated, .. } if added.is_empty() && updated == &vec!["u2"]));
    let (state, action) = upload_files(session, Vec::new(), Vec::new());
    assert!(matches!(action, UploadAction::CommitSink));
    assert!(matches!(state, UploadState::Committing { session: s, sink_committed: false } if s == session));
}

#[test]
fn session_without_files_goes_straight_to_the_commit() {
    let cfg = config(None);
    let (state, action) = upload_(&cfg, data(&[], &[]));
    assert!(matches!(action, UploadAction::OpenSink(TransportDescriptor::Presigned(_))));
    let (state, action) = upload(&cfg, state, UploadEvent::Sink(Ok(())));
    assert!(matches!(action, UploadAction::CommitSink));
    assert!(matches!(state, UploadState::Committing { sink_committed: false, .. }));
}

#[test]
fn debug_folder_sends_the_artifact_to_a_local_file() {
    let cfg = config(Some("/tmp/tejars"));
    let (state, action) = upload_(&cfg, data(&["a"], &["b"]));
    match action {
        UploadAction::OpenSink(TransportDescriptor::Debug { local_path }) => {
            assert_eq!(local_path, "/tmp/tejars/22.tejar")
        }
        _ => panic!("the debug folder was not used"),
    }
    match state {
        UploadState::Uploading { session, added, updated } => {
            assert_eq!(session, Session { upload_session_id: 11, tejar_file_id: 22 });
            assert_eq!(added, vec!["a"]);
            assert_eq!(updated, vec!["b"]);
        }
        _ => panic!("the upload did not begin"),
    }
}

#[test]
fn tejar_file_paths() {
    assert_eq!(tejar_file("/tmp/tejars", 22), "/tmp/tejars/22.tejar");
    assert_eq!(tejar_file("/tmp/tejars/", 22), "/tmp/tejars/22.tejar");
    assert_eq!(tejar_file("", 7), "7.tejar");
    assert_eq!(tejar_file("/", 0), "/0.tejar");
    assert_eq!(tejar_file("rel", -3), "rel/-3.tejar");
    assert_eq!(tejar_file("d", i64::MAX), "d/9223372036854775807.tejar");
    assert_eq!(tejar_file("d", i64::MIN), "d/-9223372036854775808.tejar");
}

#[test]
fn tejar_file_paths_agree_with_path_join() {
    for folder in ["/tmp/tejars", "/tmp/tejars/", "", "/", "a/b", "a/b/"] {
        for id in [0i64, 5, -5, 1234567890] {
            let joined = std::path::PathBuf::from(folder).join(format!("{id}.tejar"));
            assert_eq!(tejar_file(folder, id), joined.to_str().unwrap());
        }
    }
}

fn invocation(site: Option<&str>, fastn_file: FastnFile) -> Invocation {
    Invocation {
        current_dir: Some("/home/me/pkg".to_string()),
        site: match site {
            Some(site) => SiteSource::Named(site.to_string()),
            None => SiteSource::Declared(fastn_file),
        },
        id_token: Err(VarError::NotPresent),
        id_url: Err(VarError::NotPresent),
        site_token: Ok("secret".to_string()),
    }
}

#[test]
fn prepare_with_a_named_site() {
    let file = FastnFile::Content("-- fastn.package: declared".to_string());
    let prepared = prepare(invocation(Some("named"), file)).unwrap();
    assert_eq!(prepared.current_dir, "/home/me/pkg");
    assert_eq!(prepared.site, "named");
    assert!(matches!(prepared.update_token, UpdateToken::SiteToken(t) if t.0 == "secret"));
    let prepared =
        prepare(invocation(Some("named"), FastnFile::Unopened("missing".to_string()))).unwrap();
    assert_eq!(prepared.site, "named");
}

#[test]
fn prepare_with_the_declared_site() {
    let file = FastnFile::Content("-- import: x\n-- fastn.package:  declared \n".to_string());
    let prepared = prepare(invocation(None, file)).unwrap();
    assert_eq!(prepared.site, "declared");
    assert_eq!(prepared.current_dir, "/home/me/pkg");
}

#[test]
fn prepare_with_an_id_token_request() {
    let mut inv = invocation(Some("s"), FastnFile::Content(String::new()));
    inv.id_token = Ok("tok".to_string());
    inv.id_url = Ok("https://id".to_string());
    let prepared = prepare(inv).unwrap();
    assert!(matches!(prepared.update_token, UpdateToken::GithubToken(r) if r.token == "tok" && r.url == "https://id"));
}

#[test]
fn prepare_without_a_current_directory() {
    let mut inv = invocation(None, FastnFile::Unopened("x".to_string()));
    inv.current_dir = None;
    inv.site_token = Err(VarError::NotPresent);
    assert!(matches!(prepare(inv), Err(UploadError::CanNotReadCurrentDir)));
}

#[test]
fn prepare_without_a_site() {
    let inv = invocation(None, FastnFile::Content("-- import: x\n".to_string()));
    assert!(matches!(
        prepare(inv),
        Err(UploadError::CantGetSiteNameFromFtd(GetSiteNameFromFtdError::PackageNotFound))
    ));
    let inv = invocation(None, FastnFile::Unopened("No such file".to_string()));
    assert!(matches!(
        prepare(inv),
        Err(UploadError::CantGetSiteNameFromFtd(GetSiteNameFromFtdError::CantOpenFASTNFile(why))) if why == "No such file"
    ));
    let inv = invocation(None, FastnFile::Unread("bad utf-8".to_string()));
    assert!(matches!(
        prepare(inv),
        Err(UploadError::CantGetSiteNameFromFtd(GetSiteNameFromFtdError::CantReadFASTNFile(why))) if why == "bad utf-8"
    ));
}

#[test]
fn prepare_without_a_credential() {
    let mut inv = invocation(Some("s"), FastnFile::Content(String::new()));
    inv.site_token = Err(VarError::NotPresent);
    assert!(matches!(
        prepare(inv),
        Err(UploadError::CantReadTokens(UpdateTokenError::SiteToken(VarError::NotPresent)))
    ));
    let mut inv = invocation(Some("s"), FastnFile::Content(String::new()));
    inv.id_token = Ok("tok".to_string());
    assert!(matches!(
        prepare(inv),
        Err(UploadError::CantReadTokens(UpdateTokenError::GithubToken(
            GithubActionIdTokenRequestError::UrlMissing(VarError::NotPresent)
        )))
    ));
}

#[test]
fn prepare_looks_for_the_site_before_the_credential() {
    let mut inv = invocation(None, FastnFile::Content(String::new()));
    inv.site_token = Err(VarError::NotPresent);
    assert!(matches!(prepare(inv), Err(UploadError::CantGetSiteNameFromFtd(_))));
}
