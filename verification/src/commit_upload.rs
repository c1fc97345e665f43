//! The second half of the upload protocol: the store is told that the
//! artifact of a session has been delivered.

use vstd::prelude::*;
use vstd::string::StringExecFns;
use crate::http::{
    call_api, credential_headers, endpoint, endpoint_url, header_views, is_success,
    status_is_success, ApiRequest,
};
use crate::initiate_upload::Session;
use crate::token::UpdateToken;

verus! {

/// The body of the request that commits a session.
#[derive(Debug)]
pub struct CommitUploadRequest {
    pub site: String,
    pub upload_session_id: i64,
    pub tejar_file_id: i64,
}

/// Why a session was not committed. It stays pending at the store.
#[derive(Debug)]
pub enum CommitUploadError {
    /// The request did not reach the store, or its answer did not arrive.
    CantCallAPI(String),
    /// The store answered with this status, which is no success.
    Rejected(u16),
}

/// How the outcome of the request is read.
pub open spec fn committed(call: Result<u16, String>) -> Result<(), CommitUploadError> {
    match call {
        Err(why) => Err(CommitUploadError::CantCallAPI(why)),
        Ok(status) => if is_success(status) {
            Ok(())
        } else {
            Err(CommitUploadError::Rejected(status))
        },
    }
}

/// Builds the request that commits `session` of `site`: it goes to the
/// endpoint `commit-upload`, shows `token`, and echoes the two identifiers
/// of the session as the store gave them.
pub fn commit_upload_request(
    api_origin: &str,
    site: &str,
    session: Session,
    token: &UpdateToken,
) -> (request: ApiRequest<CommitUploadRequest>)
    ensures
        request.url@ == endpoint_url(api_origin@, "commit-upload"@),
        header_views(request.headers@) == credential_headers(*token),
        request.body.site@ == site@,
        request.body.upload_session_id == session.upload_session_id,
        request.body.tejar_file_id == session.tejar_file_id,
{
    let request = ApiRequest {
        url: endpoint(api_origin, "commit-upload"),
        headers: Vec::new(),
        body: CommitUploadRequest {
            site: String::from_str(site),
            upload_session_id: session.upload_session_id,
            tejar_file_id: session.tejar_file_id,
        },
    };
    assert(header_views(request.headers@) + credential_headers(*token) == credential_headers(
        *token,
    ));
    call_api(request, token)
}

/// Reads the outcome of the commit request: the status of the reply, or
/// why there was none. Only a success status commits the session.
pub fn commit_upload(call: Result<u16, String>) -> (result: Result<(), CommitUploadError>)
    ensures
        result == committed(call),
{
    match call {
        Err(why) => Err(CommitUploadError::CantCallAPI(why)),
        Ok(status) => if status_is_success(status) {
            Ok(())
        } else {
            Err(CommitUploadError::Rejected(status))
        },
    }
}

} // verus!
