//! The first half of the upload protocol: the store is told which files the
//! package holds and answers with an upload session.

use std::collections::HashMap;
use vstd::prelude::*;
use vstd::string::StringExecFns;
use crate::http::{
    call_api, credential_headers, endpoint, endpoint_url, header_views, is_success,
    status_is_success, ApiRequest, HttpReply,
};
use crate::diff::{
    exactly_once, held_unchanged, in_sync, lemma_missing_remotely_is_added_once,
    lemma_plan_is_empty_iff_in_sync, lemma_plan_is_sound, lemma_unchanged_is_not_planned,
    local_has, local_paths, planned, remote_has,
};
use crate::manifest::RemoteEntryView;
use crate::scan::{has_distinct_paths, ContentToUpload, GetLocalFilesError, LocalFileView};
use crate::token::UpdateToken;

verus! {

/// The body of the request that opens a session.
#[derive(Debug)]
pub struct InitiateUploadRequest {
    pub site: String,
    pub files: Vec<ContentToUpload>,
}

/// How the store wants the artifact delivered.
#[derive(Clone, Debug)]
pub struct PreSignedRequest {
    pub url: String,
    pub method: String,
    pub headers: HashMap<String, String>,
}

/// The session that the store opened: the files it wants, the identifiers
/// that the commit has to echo, and where the artifact goes.
#[derive(Debug)]
pub struct InitiateUploadResponse {
    pub new_files: Vec<String>,
    pub updated_files: Vec<String>,
    pub upload_session_id: i64,
    pub tejar_file_id: i64,
    pub pre_signed_request: PreSignedRequest,
}

/// The identifiers of an open session. The commit echoes them as the store
/// gave them.
#[derive(Clone, Copy, PartialEq, Eq, Structural, Debug)]
pub struct Session {
    pub upload_session_id: i64,
    pub tejar_file_id: i64,
}

impl InitiateUploadResponse {
    /// The identifiers of the session.
    #[verifier::when_used_as_spec(spec_session)]
    pub fn session(&self) -> (session: Session)
        ensures
            session == self.spec_session(),
    {
        Session { upload_session_id: self.upload_session_id, tejar_file_id: self.tejar_file_id }
    }

    /// The identifiers of the session.
    pub open spec fn spec_session(&self) -> Session {
        Session { upload_session_id: self.upload_session_id, tejar_file_id: self.tejar_file_id }
    }
}

/// The envelope in which the store answers.
#[derive(Debug)]
pub struct ApiResponse<T> {
    pub success: bool,
    pub data: Option<T>,
    pub errors: Option<HashMap<String, String>>,
}

/// Why no session was opened.
#[derive(Debug)]
pub enum InitiateUploadError {
    /// The local files could not be listed.
    CantGetLocalFiles(GetLocalFilesError),
    /// The request did not reach the store, or its answer did not arrive.
    CantCallAPI(String),
    /// The store refused, and its reason could not be read.
    CantReadBodyDuringError(String),
    /// The store refused: the body of its answer.
    APIError(String),
    /// The answer is not the JSON that was expected.
    CantParseJson(String),
    /// The store answered with a failure: its errors by field.
    GotFailure(HashMap<String, String>),
}

/// How a reply to the request is read, before its body is decoded: the
/// text to decode, or why there is none.
pub open spec fn reply_text(call: Result<HttpReply, String>) -> Result<String, InitiateUploadError> {
    match call {
        Err(why) => Err(InitiateUploadError::CantCallAPI(why)),
        Ok(reply) => if is_success(reply.status) {
            match reply.body {
                Ok(text) => Ok(text),
                Err(why) => Err(InitiateUploadError::CantCallAPI(why)),
            }
        } else {
            match reply.body {
                Ok(text) => Err(InitiateUploadError::APIError(text)),
                Err(why) => Err(InitiateUploadError::CantReadBodyDuringError(why)),
            }
        },
    }
}

/// What is said of an answer that reports success and holds no session.
pub open spec fn missing_session() -> Seq<char> {
    "the answer reports success and holds no session"@
}

/// Whether `result` is what a decoded answer comes to.
///
/// An answer that reports success opens the session it holds; without one
/// it is no answer that could be read. An answer that reports failure is a
/// failure with the errors it holds, and with none where it holds none.
pub open spec fn initiated(
    decoded: Result<ApiResponse<InitiateUploadResponse>, String>,
    result: Result<InitiateUploadResponse, InitiateUploadError>,
) -> bool {
    match decoded {
        Err(why) => result == Err::<InitiateUploadResponse, _>(
            InitiateUploadError::CantParseJson(why),
        ),
        Ok(answer) => match (answer.success, answer.data, answer.errors) {
            (true, Some(data), _) => result == Ok::<_, InitiateUploadError>(data),
            (true, None, _) => match result {
                Err(InitiateUploadError::CantParseJson(why)) => why@ == missing_session(),
                _ => false,
            },
            (false, _, Some(errors)) => result == Err::<InitiateUploadResponse, _>(
                InitiateUploadError::GotFailure(errors),
            ),
            (false, _, None) => match result {
                Err(InitiateUploadError::GotFailure(errors)) => errors@ == Map::<
                    String,
                    String,
                >::empty(),
                _ => false,
            },
        },
    }
}

/// Builds the request that opens a session for `site`: it goes to the
/// endpoint `initiate-upload`, shows `token`, and lists `files`.
pub fn initiate_upload_request(
    api_origin: &str,
    site: &str,
    files: Vec<ContentToUpload>,
    token: &UpdateToken,
) -> (request: ApiRequest<InitiateUploadRequest>)
    ensures
        request.url@ == endpoint_url(api_origin@, "initiate-upload"@),
        header_views(request.headers@) == credential_headers(*token),
        request.body.site@ == site@,
        request.body.files == files,
{
    let request = ApiRequest {
        url: endpoint(api_origin, "initiate-upload"),
        headers: Vec::new(),
        body: InitiateUploadRequest { site: String::from_str(site), files },
    };
    assert(header_views(request.headers@) + credential_headers(*token) == credential_headers(
        *token,
    ));
    call_api(request, token)
}

/// Reads the reply to the request up to its body: on a success status the
/// text that is to be decoded, else the error that the reply stands for.
pub fn read_initiate_reply(call: Result<HttpReply, String>) -> (result: Result<
    String,
    InitiateUploadError,
>)
    ensures
        result == reply_text(call),
{
    match call {
        Err(why) => Err(InitiateUploadError::CantCallAPI(why)),
        Ok(reply) => if status_is_success(reply.status) {
            match reply.body {
                Ok(text) => Ok(text),
                Err(why) => Err(InitiateUploadError::CantCallAPI(why)),
            }
        } else {
            match reply.body {
                Ok(text) => Err(InitiateUploadError::APIError(text)),
                Err(why) => Err(InitiateUploadError::CantReadBodyDuringError(why)),
            }
        },
    }
}

/// Takes the session out of the decoded answer. Every answer is taken:
/// none is refused, and none makes the call fail in another way than by
/// its result.
///
/// An answer that could not be decoded gives `CantParseJson` with the
/// reason, and so does one that reports success without a session. One
/// that reports failure gives `GotFailure` with its errors, also where it
/// names none.
pub fn initiate_upload(decoded: Result<ApiResponse<InitiateUploadResponse>, String>) -> (result:
    Result<InitiateUploadResponse, InitiateUploadError>)
    ensures
        initiated(decoded, result),
{
    match decoded {
        Err(why) => Err(InitiateUploadError::CantParseJson(why)),
        Ok(answer) => {
            let ApiResponse { success, data, errors } = answer;
            if success {
                match data {
                    Some(data) => Ok(data),
                    None => Err(
                        InitiateUploadError::CantParseJson(
                            String::from_str("the answer reports success and holds no session"),
                        ),
                    ),
                }
            } else {
                match errors {
                    Some(errors) => Err(InitiateUploadError::GotFailure(errors)),
                    None => Err(InitiateUploadError::GotFailure(HashMap::new())),
                }
            }
        },
    }
}

/// The names of a list of files.
pub open spec fn names(files: Seq<String>) -> Seq<Seq<char>> {
    files.map_values(|name: String| name@)
}

/// Whether the session `data` wants what the plan for `local` against
/// `remote` holds: as new files the paths of `to_add`, as updated files
/// those of `to_update`, each in the plan's order. A store that compares
/// the listing it is sent with the manifest it gave out answers so.
pub open spec fn follows_plan(
    data: InitiateUploadResponse,
    local: Seq<LocalFileView>,
    remote: Seq<RemoteEntryView>,
) -> bool {
    &&& names(data.new_files@) == local_paths(planned(local, remote).to_add)
    &&& names(data.updated_files@) == local_paths(planned(local, remote).to_update)
}

/// Where the store holds what the local listing holds and nothing else, a
/// session that follows the plan wants no file, and the plan names no path
/// to delete.
pub proof fn lemma_session_of_synced_wants_nothing(
    data: InitiateUploadResponse,
    local: Seq<LocalFileView>,
    remote: Seq<RemoteEntryView>,
)
    requires
        follows_plan(data, local, remote),
        in_sync(local, remote),
    ensures
        data.new_files@.len() == 0,
        data.updated_files@.len() == 0,
        planned(local, remote).to_delete.len() == 0,
{
    lemma_plan_is_empty_iff_in_sync(local, remote);
    assert(names(data.new_files@).len() == 0);
    assert(names(data.updated_files@).len() == 0);
}

/// A session that follows the plan names a local path that the manifest
/// lacks exactly once among its new files, and names no other path there.
pub proof fn lemma_session_names_missing_once(
    data: InitiateUploadResponse,
    local: Seq<LocalFileView>,
    remote: Seq<RemoteEntryView>,
)
    requires
        follows_plan(data, local, remote),
        has_distinct_paths(local),
    ensures
        forall|i: int|
            0 <= i < local.len() && !remote_has(remote, (#[trigger] local[i]).relative_path)
                ==> exactly_once(names(data.new_files@), local[i].relative_path),
        forall|k: int|
            0 <= k < data.new_files@.len() ==> local_has(
                local,
                #[trigger] names(data.new_files@)[k],
            ) && !remote_has(remote, names(data.new_files@)[k]),
{
    let added = planned(local, remote).to_add;
    assert forall|i: int|
        0 <= i < local.len() && !remote_has(
            remote,
            (#[trigger] local[i]).relative_path,
        ) implies exactly_once(names(data.new_files@), local[i].relative_path) by {
        lemma_missing_remotely_is_added_once(local, remote, i);
    }
    lemma_plan_is_sound(local, remote);
    assert forall|k: int| 0 <= k < data.new_files@.len() implies local_has(
        local,
        #[trigger] names(data.new_files@)[k],
    ) && !remote_has(remote, names(data.new_files@)[k]) by {
        assert(names(data.new_files@).len() == local_paths(added).len());
        assert(0 <= k < added.len());
        assert(names(data.new_files@)[k] == local_paths(added)[k]);
        let file = planned(local, remote).to_add[k];
        assert(local.contains(file) && !remote_has(remote, file.relative_path));
        let m = choose|m: int| 0 <= m < local.len() && local[m] == file;
        assert(local[m].relative_path == file.relative_path);
    }
}

/// A session that follows the plan names a local file whose content the
/// store holds, byte for byte, neither among its new files nor among its
/// updated ones.
pub proof fn lemma_session_leaves_unchanged_out(
    data: InitiateUploadResponse,
    local: Seq<LocalFileView>,
    remote: Seq<RemoteEntryView>,
    i: int,
)
    requires
        follows_plan(data, local, remote),
        has_distinct_paths(local),
        0 <= i < local.len(),
        held_unchanged(local[i], remote),
    ensures
        !names(data.new_files@).contains(local[i].relative_path),
        !names(data.updated_files@).contains(local[i].relative_path),
{
    lemma_unchanged_is_not_planned(local, remote, i);
}

} // verus!
