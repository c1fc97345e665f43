//! Credentials: where they come from and how a request carries them.
//!
//! The environment is read by the caller. What it found for each variable
//! is handed in, and the choice between the two kinds of credential is made
//! here.

use vstd::prelude::*;

verus! {

/// Why an environment variable gave no value.
#[derive(Debug)]
pub enum VarError {
    /// The variable is not set.
    NotPresent,
    /// The variable holds what is no valid text; its value, as far as it
    /// can be shown.
    NotUnicode(String),
}

/// What a GitHub Actions run offers for requesting an identity token.
pub struct GithubActionIdTokenRequest {
    pub token: String,
    pub url: String,
}

/// Why a GitHub Actions run offers no identity token.
#[derive(Debug)]
pub enum GithubActionIdTokenRequestError {
    /// The variable with the request token gave no value.
    TokenMissing(VarError),
    /// The variable with the request URL gave no value.
    UrlMissing(VarError),
}

/// A write token of a site.
pub struct SiteToken(pub String);

/// The credential that authorises an upload.
pub enum UpdateToken {
    SiteToken(SiteToken),
    GithubToken(GithubActionIdTokenRequest),
}

/// Why no credential was found.
#[derive(Debug)]
pub enum UpdateTokenError {
    /// There is no identity token request, and the variable with the site
    /// token gave no value.
    SiteToken(VarError),
    /// The identity token request is incomplete.
    GithubToken(GithubActionIdTokenRequestError),
}

/// The identity token request that the two variables hold: the token is
/// looked at first, the URL only where the token is there.
pub open spec fn id_token_request(
    token: Result<String, VarError>,
    url: Result<String, VarError>,
) -> Result<GithubActionIdTokenRequest, GithubActionIdTokenRequestError> {
    match token {
        Err(e) => Err(GithubActionIdTokenRequestError::TokenMissing(e)),
        Ok(token) => match url {
            Err(e) => Err(GithubActionIdTokenRequestError::UrlMissing(e)),
            Ok(url) => Ok(GithubActionIdTokenRequest { token, url }),
        },
    }
}

/// The credential that the three variables give. An identity token request
/// is preferred. Where its token is missing the site token stands in; where
/// only its URL is missing nothing does.
pub open spec fn update_token(
    id_token: Result<String, VarError>,
    id_url: Result<String, VarError>,
    site_token: Result<String, VarError>,
) -> Result<UpdateToken, UpdateTokenError> {
    match id_token_request(id_token, id_url) {
        Ok(request) => Ok(UpdateToken::GithubToken(request)),
        Err(GithubActionIdTokenRequestError::TokenMissing(_)) => match site_token {
            Ok(token) => Ok(UpdateToken::SiteToken(SiteToken(token))),
            Err(e) => Err(UpdateTokenError::SiteToken(e)),
        },
        Err(e) => Err(UpdateTokenError::GithubToken(e)),
    }
}

/// Puts together the identity token request from what the variables
/// `ACTIONS_ID_TOKEN_REQUEST_TOKEN` and `ACTIONS_ID_TOKEN_REQUEST_URL` gave.
pub fn github_action_id_token_request(
    token: Result<String, VarError>,
    url: Result<String, VarError>,
) -> (result: Result<GithubActionIdTokenRequest, GithubActionIdTokenRequestError>)
    ensures
        result == id_token_request(token, url),
{
    match token {
        Err(e) => Err(GithubActionIdTokenRequestError::TokenMissing(e)),
        Ok(token) => match url {
            Err(e) => Err(GithubActionIdTokenRequestError::UrlMissing(e)),
            Ok(url) => Ok(GithubActionIdTokenRequest { token, url }),
        },
    }
}

/// Chooses the credential from what the two identity token variables and
/// `FIFTHTRY_SITE_WRITE_TOKEN` gave.
pub fn get_update_token(
    id_token: Result<String, VarError>,
    id_url: Result<String, VarError>,
    site_token: Result<String, VarError>,
) -> (result: Result<UpdateToken, UpdateTokenError>)
    ensures
        result == update_token(id_token, id_url, site_token),
{
    match github_action_id_token_request(id_token, id_url) {
        Ok(request) => Ok(UpdateToken::GithubToken(request)),
        Err(GithubActionIdTokenRequestError::TokenMissing(_)) => match site_token {
            Ok(token) => Ok(UpdateToken::SiteToken(SiteToken(token))),
            Err(e) => Err(UpdateTokenError::SiteToken(e)),
        },
        Err(e) => Err(UpdateTokenError::GithubToken(e)),
    }
}

} // verus!
