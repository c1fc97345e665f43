//! The errors of a run.

use vstd::prelude::*;
use crate::commit_upload::CommitUploadError;
use crate::initiate_upload::InitiateUploadError;
use crate::manifest::ManifestFetchError;
use crate::site::GetSiteNameFromFtdError;
use crate::token::UpdateTokenError;
use crate::uploader::UploaderError;

verus! {

/// Why an upload failed. Every failure ends the run: nothing is retried,
/// and a session that was opened stays pending at the store.
#[derive(Debug)]
pub enum UploadError {
    /// The current directory could not be read.
    CanNotReadCurrentDir,
    /// No site was named and `FASTN.ftd` gave none.
    CantGetSiteNameFromFtd(GetSiteNameFromFtdError),
    /// No credential was found.
    CantReadTokens(UpdateTokenError),
    /// The manifest of the site could not be fetched.
    CantFetchManifest(ManifestFetchError),
    /// The local files could not be listed, or the store opened no session.
    CantInitiateUpload(InitiateUploadError),
    /// The store did not commit the session.
    CantCommitUpload(CommitUploadError),
    /// The sink failed.
    CantUpload(UploaderError),
    /// The run was told of something it had not asked for.
    OutOfTurn,
}

/// Why a command failed.
#[derive(Debug)]
pub enum Error {
    CliftError,
    UploadError(UploadError),
    ReqwestError(String),
    UrlParseError(String),
}

} // verus!
