//! The run of one upload, as a state machine.
//!
//! A run goes from `Idle` through `Scanning`, `Diffing`, `Initiating`,
//! `Uploading` and `Committing` to `Done`; it ends early in `NoChanges`
//! where the store already holds what the package holds, and in `Failed`
//! on the first failure of any step. `upload` takes the state of a run and
//! what happened last, and gives the next state and what is to be done
//! next. The caller does it and comes back with the outcome.
//!
//! The store decides what is uploaded: it is told of every local file and
//! names those it wants. The plan computed here tells whether the store
//! has to be asked at all, and is kept for the caller to show. Paths that
//! only the store has are reported in the plan and not deleted by the run:
//! the store sees from the listing it is sent that they are gone.

use vstd::prelude::*;
use vstd::string::StringExecFns;
use crate::commit_upload::CommitUploadError;
use crate::diff::{
    diff, in_sync, is_empty_plan, lemma_plan_is_empty_iff_in_sync, planned, UploadPlan,
    UploadPlanView,
};
use crate::error::UploadError;
use crate::initiate_upload::{InitiateUploadError, InitiateUploadResponse, Session};
use crate::manifest::{remote_views, ManifestFetchError, ManifestProtocol, RemoteManifestEntry};
use crate::scan::{
    describe_all, described, local_views, upload_views, ContentToUpload, GetLocalFilesError,
    LocalFile, LocalFileView,
};
use crate::site::{declared_site, get_site_name_from_ftd, FastnFile, GetSiteNameFromFtdError};
use crate::text::{joined, push_signed_decimal, signed_decimal};
use crate::token::{get_update_token, update_token, UpdateToken, VarError};
use crate::uploader::{TransportDescriptor, UploaderError};

verus! {

/// What a run is set up with. It is put together once, before the run, and
/// not looked up again.
#[derive(Debug)]
pub struct Config {
    /// The origin of the store's API.
    pub api_origin: String,
    /// The manifest protocol that the store speaks.
    pub protocol: ManifestProtocol,
    /// Where set, the artifact goes to a local file in this folder and not
    /// to the store.
    pub debug_folder: Option<String>,
}

/// Where the name of the site comes from. `FASTN.ftd` is looked at only
/// where the command line names no site.
pub enum SiteSource {
    /// The site named on the command line.
    Named(String),
    /// `FASTN.ftd` in the current directory, as far as it could be read.
    Declared(FastnFile),
}

/// What the command was started with and what it found around it, before
/// anything is decided.
pub struct Invocation {
    /// The current directory; `None` where it could not be read.
    pub current_dir: Option<String>,
    /// Where the name of the site comes from.
    pub site: SiteSource,
    /// What the variable with the identity token request's token gave.
    pub id_token: Result<String, VarError>,
    /// What the variable with the identity token request's URL gave.
    pub id_url: Result<String, VarError>,
    /// What the variable with the site token gave.
    pub site_token: Result<String, VarError>,
}

/// What a run works on: the package directory, the site it goes to and the
/// credential it shows.
pub struct Prepared {
    pub current_dir: String,
    pub site: String,
    pub update_token: UpdateToken,
}

/// Why the store wants a file.
#[derive(Clone, Copy, PartialEq, Eq, Structural, Debug)]
pub enum FileStatus {
    Added,
    Updated,
}

/// Where a run stands.
#[derive(Debug)]
pub enum UploadState {
    /// Nothing has been done.
    Idle,
    /// The local tree is being scanned.
    Scanning,
    /// The manifest is being fetched, to be held against the local files.
    Diffing { local: Vec<LocalFile> },
    /// The store holds what the package holds. The run is over.
    NoChanges,
    /// The store is being asked for a session.
    Initiating { plan: UploadPlan },
    /// The sink is being opened or fed. `added` and `updated` are the files
    /// that the store wants and the sink has not been asked to take yet.
    Uploading { session: Session, added: Vec<String>, updated: Vec<String> },
    /// The sink is being committed, or, after it, the session.
    Committing { session: Session, sink_committed: bool },
    /// The session is committed. The run is over.
    Done,
    /// A step failed. The run is over.
    Failed(UploadError),
}

/// What happened last.
#[derive(Debug)]
pub enum UploadEvent {
    /// The run is to begin.
    Start,
    /// The scan ended.
    Scanned(Result<Vec<LocalFile>, GetLocalFilesError>),
    /// The fetch of the manifest ended.
    Fetched(Result<Vec<RemoteManifestEntry>, ManifestFetchError>),
    /// The request for a session ended.
    Initiated(Result<InitiateUploadResponse, InitiateUploadError>),
    /// What the sink was last asked for ended: to open, to take a file, or
    /// to commit.
    Sink(Result<(), UploaderError>),
    /// The commit of the session ended.
    SessionCommitted(Result<(), CommitUploadError>),
}

/// What is to be done next.
#[derive(Debug)]
pub enum UploadAction {
    /// Scan the local tree.
    Scan,
    /// Fetch the manifest of the site.
    FetchManifest,
    /// Ask the store for a session, with this listing of the local files.
    Initiate(Vec<ContentToUpload>),
    /// Open the sink that the descriptor asks for.
    OpenSink(TransportDescriptor),
    /// Hand this file to the sink.
    Upload { file_name: String, status: FileStatus },
    /// Commit the sink.
    CommitSink,
    /// Commit the session at the store.
    CommitSession(Session),
    /// Nothing: the run is over.
    Stop,
}

/// The path of the local file that stands in for the artifact `id`.
pub open spec fn tejar_path(folder: Seq<char>, id: i64) -> Seq<char> {
    joined(folder, signed_decimal(id as int) + ".tejar"@)
}

/// Whether `descriptor` is the transport of the session `data` under
/// `config`: the local stand-in where a debug folder is set, else the
/// request that the store presigned.
pub open spec fn is_transport_of(
    config: Config,
    data: InitiateUploadResponse,
    descriptor: TransportDescriptor,
) -> bool {
    match config.debug_folder {
        Some(folder) => match descriptor {
            TransportDescriptor::Debug { local_path } => local_path@ == tejar_path(
                folder@,
                data.tejar_file_id,
            ),
            _ => false,
        },
        None => descriptor == TransportDescriptor::Presigned(data.pre_signed_request),
    }
}

/// Whether a run in `state` is over.
pub open spec fn is_over(state: UploadState) -> bool {
    state is NoChanges || state is Done || state is Failed
}

/// The step that opens the upload of the session `data`.
pub open spec fn opens_session(
    config: Config,
    data: InitiateUploadResponse,
    next: UploadState,
    action: UploadAction,
) -> bool {
    &&& next == UploadState::Uploading {
        session: data.session(),
        added: data.new_files,
        updated: data.updated_files,
    }
    &&& match action {
        UploadAction::OpenSink(descriptor) => is_transport_of(config, data, descriptor),
        _ => false,
    }
}

/// The step that follows a success of the sink while files are uploaded:
/// the first file that is left goes to the sink, added files before updated
/// ones and each list in its order; with none left the sink is committed.
pub open spec fn feeds_sink(
    session: Session,
    added: Vec<String>,
    updated: Vec<String>,
    next: UploadState,
    action: UploadAction,
) -> bool {
    if added@.len() > 0 {
        &&& action == UploadAction::Upload { file_name: added@[0], status: FileStatus::Added }
        &&& match next {
            UploadState::Uploading { session: s, added: a, updated: u } => s == session && a@
                == added@.drop_first() && u == updated,
            _ => false,
        }
    } else if updated@.len() > 0 {
        &&& action == UploadAction::Upload { file_name: updated@[0], status: FileStatus::Updated }
        &&& match next {
            UploadState::Uploading { session: s, added: a, updated: u } => s == session && a@
                == added@ && u@ == updated@.drop_first(),
            _ => false,
        }
    } else {
        &&& action == UploadAction::CommitSink
        &&& next == UploadState::Committing { session, sink_committed: false }
    }
}

/// The step that follows the fetch of the manifest `remote`, with the local
/// files `local`.
pub open spec fn compares(
    local: Vec<LocalFile>,
    remote: Vec<RemoteManifestEntry>,
    next: UploadState,
    action: UploadAction,
) -> bool {
    let plan = planned(local_views(local@), remote_views(remote@));
    if is_empty_plan(plan) {
        next == UploadState::NoChanges && action == UploadAction::Stop
    } else {
        &&& match next {
            UploadState::Initiating { plan: kept } => kept@ == plan,
            _ => false,
        }
        &&& match action {
            UploadAction::Initiate(files) => upload_views(files@) == local_views(local@).map_values(
                |f: LocalFileView| described(f),
            ),
            _ => false,
        }
    }
}

/// The step of a run: from `state`, on `event`, to `next` with `action`.
pub open spec fn steps(
    config: Config,
    state: UploadState,
    event: UploadEvent,
    next: UploadState,
    action: UploadAction,
) -> bool {
    match (state, event) {
        (UploadState::NoChanges, _) | (UploadState::Done, _) | (UploadState::Failed(_), _) => next
            == state && action == UploadAction::Stop,
        (UploadState::Idle, UploadEvent::Start) => next == UploadState::Scanning && action
            == UploadAction::Scan,
        (UploadState::Scanning, UploadEvent::Scanned(Ok(local))) => next == (UploadState::Diffing {
            local,
        }) && action == UploadAction::FetchManifest,
        (UploadState::Scanning, UploadEvent::Scanned(Err(e))) => fails(
            UploadError::CantInitiateUpload(InitiateUploadError::CantGetLocalFiles(e)),
            next,
            action,
        ),
        (UploadState::Diffing { local }, UploadEvent::Fetched(Ok(remote))) => compares(
            local,
            remote,
            next,
            action,
        ),
        (UploadState::Diffing { .. }, UploadEvent::Fetched(Err(e))) => fails(
            UploadError::CantFetchManifest(e),
            next,
            action,
        ),
        (UploadState::Initiating { .. }, UploadEvent::Initiated(Ok(data))) => opens_session(
            config,
            data,
            next,
            action,
        ),
        (UploadState::Initiating { .. }, UploadEvent::Initiated(Err(e))) => fails(
            UploadError::CantInitiateUpload(e),
            next,
            action,
        ),
        (UploadState::Uploading { session, added, updated }, UploadEvent::Sink(Ok(_))) => feeds_sink(
            session,
            added,
            updated,
            next,
            action,
        ),
        (UploadState::Uploading { .. }, UploadEvent::Sink(Err(e))) => fails(
            UploadError::CantUpload(e),
            next,
            action,
        ),
        (
            UploadState::Committing { session, sink_committed: false },
            UploadEvent::Sink(Ok(_)),
        ) => next == (UploadState::Committing { session, sink_committed: true }) && action
            == UploadAction::CommitSession(session),
        (UploadState::Committing { sink_committed: false, .. }, UploadEvent::Sink(Err(e))) => fails(
            UploadError::CantUpload(e),
            next,
            action,
        ),
        (
            UploadState::Committing { sink_committed: true, .. },
            UploadEvent::SessionCommitted(Ok(_)),
        ) => next == UploadState::Done && action == UploadAction::Stop,
        (
            UploadState::Committing { sink_committed: true, .. },
            UploadEvent::SessionCommitted(Err(e)),
        ) => fails(UploadError::CantCommitUpload(e), next, action),
        _ => fails(UploadError::OutOfTurn, next, action),
    }
}

/// The step into failure with `error`.
pub open spec fn fails(error: UploadError, next: UploadState, action: UploadAction) -> bool {
    next == UploadState::Failed(error) && action == UploadAction::Stop
}

/// Whether `result` is what `invocation` prepares. The current directory
/// is needed first. The site is the one that was named, else the one that
/// `FASTN.ftd` declares. The credential comes last.
pub open spec fn prepares(invocation: Invocation, result: Result<Prepared, UploadError>) -> bool {
    match invocation.current_dir {
        None => result == Err::<Prepared, _>(UploadError::CanNotReadCurrentDir),
        Some(current_dir) => match invocation.site {
            SiteSource::Named(site) => credentials(invocation, current_dir, site@, result),
            SiteSource::Declared(FastnFile::Content(text)) => match declared_site(text@) {
                Some(site) => credentials(invocation, current_dir, site, result),
                None => result == Err::<Prepared, _>(
                    UploadError::CantGetSiteNameFromFtd(GetSiteNameFromFtdError::PackageNotFound),
                ),
            },
            SiteSource::Declared(FastnFile::Unopened(why)) => match result {
                Err(
                    UploadError::CantGetSiteNameFromFtd(
                        GetSiteNameFromFtdError::CantOpenFASTNFile(reason),
                    ),
                ) => reason@ == why@,
                _ => false,
            },
            SiteSource::Declared(FastnFile::Unread(why)) => match result {
                Err(
                    UploadError::CantGetSiteNameFromFtd(
                        GetSiteNameFromFtdError::CantReadFASTNFile(reason),
                    ),
                ) => reason@ == why@,
                _ => false,
            },
        },
    }
}

/// Whether `result` is what `invocation` prepares once the directory and
/// the site are known: they come back with the credential that the three
/// variables give, or the run fails for want of one.
pub open spec fn credentials(
    invocation: Invocation,
    current_dir: String,
    site: Seq<char>,
    result: Result<Prepared, UploadError>,
) -> bool {
    match update_token(invocation.id_token, invocation.id_url, invocation.site_token) {
        Ok(token) => match result {
            Ok(prepared) => prepared.current_dir == current_dir && prepared.site@ == site
                && prepared.update_token == token,
            Err(_) => false,
        },
        Err(e) => result == Err::<Prepared, _>(UploadError::CantReadTokens(e)),
    }
}

/// Prepares a run from what the command was started with.
pub fn prepare(invocation: Invocation) -> (result: Result<Prepared, UploadError>)
    ensures
        prepares(invocation, result),
{
    let Invocation { current_dir, site, id_token, id_url, site_token } = invocation;
    let current_dir = match current_dir {
        Some(current_dir) => current_dir,
        None => {
            return Err(UploadError::CanNotReadCurrentDir);
        },
    };
    let site = match site {
        SiteSource::Named(site) => site,
        SiteSource::Declared(fastn_file) => match get_site_name_from_ftd(&fastn_file) {
            Ok(site) => site,
            Err(e) => {
                return Err(UploadError::CantGetSiteNameFromFtd(e));
            },
        },
    };
    match get_update_token(id_token, id_url, site_token) {
        Ok(update_token) => Ok(Prepared { current_dir, site, update_token }),
        Err(e) => Err(UploadError::CantReadTokens(e)),
    }
}

/// Builds the path of the local file that stands in for the artifact `id`.
pub fn tejar_file(folder: &str, id: i64) -> (path: String)
    ensures
        path@ == tejar_path(folder@, id),
{
    let chars = crate::text::chars_of(folder);
    let mut path = String::from_str(folder);
    if chars.len() > 0 && chars[chars.len() - 1] != '/' {
        path.push('/');
    }
    let ghost stem = path@;
    push_signed_decimal(&mut path, id);
    path.append(".tejar");
    assert(path@ == stem + (signed_decimal(id as int) + ".tejar"@));
    path
}

/// Chooses the next step while files are uploaded, after the sink took what
/// it was last asked to take.
pub fn upload_files(session: Session, added: Vec<String>, updated: Vec<String>) -> (step: (
    UploadState,
    UploadAction,
))
    ensures
        feeds_sink(session, added, updated, step.0, step.1),
{
    let mut added = added;
    let mut updated = updated;
    if added.len() > 0 {
        let file_name = added.remove(0);
        (
            UploadState::Uploading { session, added, updated },
            UploadAction::Upload { file_name, status: FileStatus::Added },
        )
    } else if updated.len() > 0 {
        let file_name = updated.remove(0);
        (
            UploadState::Uploading { session, added, updated },
            UploadAction::Upload { file_name, status: FileStatus::Updated },
        )
    } else {
        (UploadState::Committing { session, sink_committed: false }, UploadAction::CommitSink)
    }
}

/// Opens the upload of the session `data`: picks its transport once, from
/// `config`, and queues the files that the store wants.
pub fn upload_(config: &Config, data: InitiateUploadResponse) -> (step: (UploadState, UploadAction))
    ensures
        opens_session(*config, data, step.0, step.1),
{
    let InitiateUploadResponse {
        new_files,
        updated_files,
        upload_session_id,
        tejar_file_id,
        pre_signed_request,
    } = data;
    let descriptor = match &config.debug_folder {
        Some(folder) => TransportDescriptor::Debug {
            local_path: tejar_file(folder.as_str(), tejar_file_id),
        },
        None => TransportDescriptor::Presigned(pre_signed_request),
    };
    (
        UploadState::Uploading {
            session: Session { upload_session_id, tejar_file_id },
            added: new_files,
            updated: updated_files,
        },
        UploadAction::OpenSink(descriptor),
    )
}

fn compare(local: Vec<LocalFile>, remote: Vec<RemoteManifestEntry>) -> (step: (
    UploadState,
    UploadAction,
))
    ensures
        compares(local, remote, step.0, step.1),
{
    let plan = diff(&local, &remote);
    if plan.is_empty() {
        (UploadState::NoChanges, UploadAction::Stop)
    } else {
        (UploadState::Initiating { plan }, UploadAction::Initiate(describe_all(&local)))
    }
}

fn fail(error: UploadError) -> (step: (UploadState, UploadAction))
    ensures
        fails(error, step.0, step.1),
{
    (UploadState::Failed(error), UploadAction::Stop)
}

/// Takes a run one step on: from `state`, on `event`, to the next state
/// and the next thing to do.
///
/// A run that is over stays as it is and asks for nothing. The first
/// failure of a step ends the run in `Failed` with that step's error, and
/// so does an event that the state did not ask for.
pub fn upload(config: &Config, state: UploadState, event: UploadEvent) -> (step: (
    UploadState,
    UploadAction,
))
    ensures
        steps(*config, state, event, step.0, step.1),
{
    match (state, event) {
        (UploadState::NoChanges, _) => (UploadState::NoChanges, UploadAction::Stop),
        (UploadState::Done, _) => (UploadState::Done, UploadAction::Stop),
        (UploadState::Failed(error), _) => (UploadState::Failed(error), UploadAction::Stop),
        (UploadState::Idle, UploadEvent::Start) => (UploadState::Scanning, UploadAction::Scan),
        (UploadState::Scanning, UploadEvent::Scanned(Ok(local))) => (
            UploadState::Diffing { local },
            UploadAction::FetchManifest,
        ),
        (UploadState::Scanning, UploadEvent::Scanned(Err(e))) => fail(
            UploadError::CantInitiateUpload(InitiateUploadError::CantGetLocalFiles(e)),
        ),
        (UploadState::Diffing { local }, UploadEvent::Fetched(Ok(remote))) => compare(local, remote),
        (UploadState::Diffing { .. }, UploadEvent::Fetched(Err(e))) => fail(
            UploadError::CantFetchManifest(e),
        ),
        (UploadState::Initiating { .. }, UploadEvent::Initiated(Ok(data))) => upload_(config, data),
        (UploadState::Initiating { .. }, UploadEvent::Initiated(Err(e))) => fail(
            UploadError::CantInitiateUpload(e),
        ),
        (UploadState::Uploading { session, added, updated }, UploadEvent::Sink(Ok(_))) => upload_files(
            session,
            added,
            updated,
        ),
        (UploadState::Uploading { .. }, UploadEvent::Sink(Err(e))) => fail(
            UploadError::CantUpload(e),
        ),
        (
            UploadState::Committing { session, sink_committed: false },
            UploadEvent::Sink(Ok(_)),
        ) => (
            UploadState::Committing { session, sink_committed: true },
            UploadAction::CommitSession(session),
        ),
        (UploadState::Committing { sink_committed: false, .. }, UploadEvent::Sink(Err(e))) => fail(
            UploadError::CantUpload(e),
        ),
        (
            UploadState::Committing { sink_committed: true, .. },
            UploadEvent::SessionCommitted(Ok(_)),
        ) => (UploadState::Done, UploadAction::Stop),
        (
            UploadState::Committing { sink_committed: true, .. },
            UploadEvent::SessionCommitted(Err(e)),
        ) => fail(UploadError::CantCommitUpload(e)),
        _ => fail(UploadError::OutOfTurn),
    }
}

/// Whether `states`, `events` and `actions` are a run under `config`: each
/// state, on the event that came in it, steps to the state after it with
/// the action of that step.
pub open spec fn is_run(
    config: Config,
    states: Seq<UploadState>,
    events: Seq<UploadEvent>,
    actions: Seq<UploadAction>,
) -> bool {
    &&& states.len() == events.len() + 1
    &&& actions.len() == events.len()
    &&& forall|i: int|
        #![trigger events[i]]
        0 <= i < events.len() ==> steps(config, states[i], events[i], states[i + 1], actions[i])
}

/// The session that an event tells of: the one that the store opened, with
/// the identifiers it gave.
pub open spec fn opened_by(event: UploadEvent) -> Option<Session> {
    match event {
        UploadEvent::Initiated(Ok(data)) => Some(data.session()),
        _ => None,
    }
}

/// The plan that a state keeps, if it keeps one.
pub open spec fn plan_of(state: UploadState) -> Option<UploadPlanView> {
    match state {
        UploadState::Initiating { plan } => Some(plan@),
        _ => None,
    }
}

/// The session that a state works on, if it works on one.
pub open spec fn session_of(state: UploadState) -> Option<Session> {
    match state {
        UploadState::Uploading { session, .. } => Some(session),
        UploadState::Committing { session, .. } => Some(session),
        _ => None,
    }
}

/// Whether `event` reports that the sink did what it was asked for.
pub open spec fn sink_succeeded(event: UploadEvent) -> bool {
    match event {
        UploadEvent::Sink(Ok(_)) => true,
        _ => false,
    }
}

/// The number of files that the sink has not been asked to take yet, while
/// files are uploaded.
pub open spec fn files_left(state: UploadState) -> Option<nat> {
    match state {
        UploadState::Uploading { added, updated, .. } => Some(added@.len() + updated@.len()),
        _ => None,
    }
}

/// A run that finds the store holding what the package holds, and nothing
/// else, ends there: no session is asked for and nothing is uploaded. Any
/// other run keeps the plan and asks for a session with the whole local
/// listing.
pub proof fn lemma_run_in_sync_asks_for_nothing(
    config: Config,
    local: Vec<LocalFile>,
    remote: Vec<RemoteManifestEntry>,
    next: UploadState,
    action: UploadAction,
)
    requires
        steps(config, UploadState::Diffing { local }, UploadEvent::Fetched(Ok(remote)), next, action),
    ensures
        in_sync(local_views(local@), remote_views(remote@)) ==> next == UploadState::NoChanges
            && action == UploadAction::Stop,
        !in_sync(local_views(local@), remote_views(remote@)) ==> action is Initiate && plan_of(next)
            == Some(planned(local_views(local@), remote_views(remote@))),
{
    lemma_plan_is_empty_iff_in_sync(local_views(local@), remote_views(remote@));
}

/// A run that is over asks for nothing more, whatever it is told.
pub proof fn lemma_over_is_final(
    config: Config,
    state: UploadState,
    event: UploadEvent,
    next: UploadState,
    action: UploadAction,
)
    requires
        is_over(state),
        steps(config, state, event, next, action),
    ensures
        next == state,
        action == UploadAction::Stop,
{
}

/// The sink is committed only when it has taken every file that the store
/// wants, and the session only when the sink has been committed.
pub proof fn lemma_commit_is_a_barrier(
    config: Config,
    state: UploadState,
    event: UploadEvent,
    next: UploadState,
    action: UploadAction,
)
    requires
        steps(config, state, event, next, action),
    ensures
        action is CommitSink ==> sink_succeeded(event) && files_left(state) == Some(0nat),
        action is CommitSession ==> sink_succeeded(event) && state == (UploadState::Committing {
            session: action->CommitSession_0,
            sink_committed: false,
        }),
        action is Upload ==> sink_succeeded(event) && state is Uploading,
{
}

proof fn lemma_stays_failed(
    config: Config,
    states: Seq<UploadState>,
    events: Seq<UploadEvent>,
    actions: Seq<UploadAction>,
    k: int,
    j: int,
)
    requires
        is_run(config, states, events, actions),
        0 <= k <= j < events.len(),
        states[k + 1] is Failed,
        actions[k] is Stop,
    ensures
        states[j + 1] == states[k + 1],
        actions[j] is Stop,
    decreases j - k,
{
    if k < j {
        lemma_stays_failed(config, states, events, actions, k, j - 1);
        assert(steps(config, states[j], events[j], states[j + 1], actions[j]));
    }
}

/// Where the sink fails while files are uploaded, the run ends in `Failed`
/// with the sink's error, and from then on nothing is asked for: neither
/// the sink nor the session is ever committed.
pub proof fn lemma_failed_upload_is_never_committed(
    config: Config,
    states: Seq<UploadState>,
    events: Seq<UploadEvent>,
    actions: Seq<UploadAction>,
    k: int,
    e: UploaderError,
)
    requires
        is_run(config, states, events, actions),
        0 <= k < events.len(),
        states[k] is Uploading,
        events[k] == UploadEvent::Sink(Err(e)),
    ensures
        forall|j: int|
            k < j < states.len() ==> #[trigger] states[j] == UploadState::Failed(
                UploadError::CantUpload(e),
            ),
        forall|j: int| k <= j < actions.len() ==> #[trigger] actions[j] == UploadAction::Stop,
{
    assert(steps(config, states[k], events[k], states[k + 1], actions[k]));
    assert forall|j: int| k < j < states.len() implies #[trigger] states[j] == UploadState::Failed(
        UploadError::CantUpload(e),
    ) by {
        lemma_stays_failed(config, states, events, actions, k, j - 1);
    }
    assert forall|j: int| k <= j < actions.len() implies #[trigger] actions[j]
        == UploadAction::Stop by {
        lemma_stays_failed(config, states, events, actions, k, j);
    }
}

/// The files that a state has left for the sink, in the order in which
/// they go to it, each with the reason why the store wants it.
pub open spec fn queue_of(state: UploadState) -> Seq<(String, FileStatus)> {
    match state {
        UploadState::Uploading { added, updated, .. } => added@.map_values(
            |name: String| (name, FileStatus::Added),
        ) + updated@.map_values(|name: String| (name, FileStatus::Updated)),
        _ => Seq::empty(),
    }
}

/// The files that the store wants for the session that an event tells of:
/// the added ones, then the updated ones, each list as the store gave it.
pub open spec fn wanted_by(event: UploadEvent) -> Seq<(String, FileStatus)> {
    match event {
        UploadEvent::Initiated(Ok(data)) => data.new_files@.map_values(
            |name: String| (name, FileStatus::Added),
        ) + data.updated_files@.map_values(|name: String| (name, FileStatus::Updated)),
        _ => Seq::empty(),
    }
}

/// The action that hands `item` to the sink.
pub open spec fn upload_of(item: (String, FileStatus)) -> UploadAction {
    UploadAction::Upload { file_name: item.0, status: item.1 }
}

/// Whether a state lies behind the upload of the files: the sink is being
/// committed or has been, or the run is over.
pub open spec fn is_past_upload(state: UploadState) -> bool {
    state is Committing || is_over(state)
}

proof fn lemma_feeds_first_of_queue(
    config: Config,
    state: UploadState,
    event: UploadEvent,
    next: UploadState,
    action: UploadAction,
)
    requires
        steps(config, state, event, next, action),
        state is Uploading,
    ensures
        sink_succeeded(event) && queue_of(state).len() > 0 ==> action == upload_of(
            queue_of(state)[0],
        ) && next is Uploading && queue_of(next) == queue_of(state).drop_first(),
        sink_succeeded(event) && queue_of(state).len() == 0 ==> action is CommitSink
            && next is Committing,
        !sink_succeeded(event) ==> action is Stop && next is Failed,
{
    if sink_succeeded(event) && queue_of(state).len() > 0 {
        let added = state->Uploading_added@;
        let updated = state->Uploading_updated@;
        let by_add = |name: String| (name, FileStatus::Added);
        let by_update = |name: String| (name, FileStatus::Updated);
        if added.len() > 0 {
            assert(added.drop_first().map_values(by_add) == added.map_values(by_add).drop_first());
            assert(queue_of(next) == queue_of(state).drop_first());
        } else {
            assert(updated.drop_first().map_values(by_update) == updated.map_values(
                by_update,
            ).drop_first());
            assert(next->Uploading_added@.map_values(by_add) == added.map_values(by_add));
            assert(queue_of(next) == queue_of(state).drop_first());
        }
    }
}

proof fn lemma_stays_past_upload(
    config: Config,
    states: Seq<UploadState>,
    events: Seq<UploadEvent>,
    actions: Seq<UploadAction>,
    m: int,
    j: int,
)
    requires
        is_run(config, states, events, actions),
        0 <= m <= j < actions.len(),
        is_past_upload(states[m]),
    ensures
        is_past_upload(states[j + 1]),
        !(actions[j] is CommitSink),
        !(actions[j] is Upload),
    decreases j - m,
{
    if m < j {
        lemma_stays_past_upload(config, states, events, actions, m, j - 1);
    }
    assert(steps(config, states[j], events[j], states[j + 1], actions[j]));
}

proof fn lemma_uploads_until_commit(
    config: Config,
    states: Seq<UploadState>,
    events: Seq<UploadEvent>,
    actions: Seq<UploadAction>,
    m: int,
    j: int,
)
    requires
        is_run(config, states, events, actions),
        0 <= m <= j < actions.len(),
        states[m] is Uploading,
        actions[j] is CommitSink,
    ensures
        j - m == queue_of(states[m]).len(),
        forall|k: int|
            0 <= k < queue_of(states[m]).len() ==> #[trigger] actions[m + k] == upload_of(
                queue_of(states[m])[k],
            ),
    decreases j - m,
{
    let queue = queue_of(states[m]);
    assert(steps(config, states[m], events[m], states[m + 1], actions[m]));
    lemma_feeds_first_of_queue(config, states[m], events[m], states[m + 1], actions[m]);
    if sink_succeeded(events[m]) && queue.len() > 0 {
        lemma_uploads_until_commit(config, states, events, actions, m + 1, j);
        assert forall|k: int| 0 <= k < queue.len() implies #[trigger] actions[m + k] == upload_of(
            queue[k],
        ) by {
            if k > 0 {
                assert(actions[(m + 1) + (k - 1)] == upload_of(queue.drop_first()[k - 1]));
            }
        }
    } else if m < j {
        lemma_stays_past_upload(config, states, events, actions, m + 1, j);
    }
}

/// Between the opening of the sink and its commit, every file that the
/// store wants goes to the sink, once and in order: the added files as the
/// store listed them, then the updated ones. The commit comes right after
/// the last of them.
pub proof fn lemma_every_wanted_file_is_uploaded(
    config: Config,
    states: Seq<UploadState>,
    events: Seq<UploadEvent>,
    actions: Seq<UploadAction>,
    i: int,
    j: int,
)
    requires
        is_run(config, states, events, actions),
        0 <= i < j < actions.len(),
        actions[i] is OpenSink,
        actions[j] is CommitSink,
    ensures
        states[i + 1] is Uploading,
        queue_of(states[i + 1]) == wanted_by(events[i]),
        j == i + 1 + queue_of(states[i + 1]).len(),
        forall|k: int|
            0 <= k < queue_of(states[i + 1]).len() ==> #[trigger] actions[i + 1 + k] == upload_of(
                queue_of(states[i + 1])[k],
            ),
{
    assert(steps(config, states[i], events[i], states[i + 1], actions[i]));
    lemma_uploads_until_commit(config, states, events, actions, i + 1, j);
}

/// The sink is committed at most once in a run.
pub proof fn lemma_sink_is_committed_once(
    config: Config,
    states: Seq<UploadState>,
    events: Seq<UploadEvent>,
    actions: Seq<UploadAction>,
    j: int,
    later: int,
)
    requires
        is_run(config, states, events, actions),
        0 <= j <= later < actions.len(),
        actions[j] is CommitSink,
        actions[later] is CommitSink,
    ensures
        j == later,
{
    assert(steps(config, states[j], events[j], states[j + 1], actions[j]));
    if j < later {
        lemma_stays_past_upload(config, states, events, actions, j + 1, later);
    }
}

proof fn lemma_session_has_origin(
    config: Config,
    states: Seq<UploadState>,
    events: Seq<UploadEvent>,
    actions: Seq<UploadAction>,
    m: int,
) -> (i: int)
    requires
        is_run(config, states, events, actions),
        states[0] is Idle,
        0 <= m < states.len(),
        session_of(states[m]) is Some,
    ensures
        0 <= i < m,
        opened_by(events[i]) == session_of(states[m]),
    decreases m,
{
    assert(m > 0);
    assert(steps(config, states[m - 1], events[m - 1], states[m], actions[m - 1]));
    if session_of(states[m - 1]) is Some {
        let i = lemma_session_has_origin(config, states, events, actions, m - 1);
        i
    } else {
        m - 1
    }
}

/// The commit of a session echoes the identifiers that the store gave when
/// it opened the session, unchanged.
pub proof fn lemma_commit_echoes_session(
    config: Config,
    states: Seq<UploadState>,
    events: Seq<UploadEvent>,
    actions: Seq<UploadAction>,
    j: int,
    session: Session,
)
    requires
        is_run(config, states, events, actions),
        states[0] is Idle,
        0 <= j < actions.len(),
        actions[j] == UploadAction::CommitSession(session),
    ensures
        exists|i: int| 0 <= i < j && opened_by(#[trigger] events[i]) == Some(session),
{
    assert(steps(config, states[j], events[j], states[j + 1], actions[j]));
    let i = lemma_session_has_origin(config, states, events, actions, j);
    assert(opened_by(events[i]) == Some(session));
}

} // verus!
