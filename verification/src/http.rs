//! Requests to the store and its replies, as plain values. Sending a
//! request and reading a reply are the caller's.

use vstd::prelude::*;
use vstd::string::StringExecFns;
use crate::token::UpdateToken;

verus! {

/// A request to one endpoint of the store, with a body of type `B`.
#[derive(Debug)]
pub struct ApiRequest<B> {
    pub url: String,
    pub headers: Vec<(String, String)>,
    pub body: B,
}

/// What came back for a request that reached the store: the status and the
/// body as text, or the reason why the body could not be read.
#[derive(Debug)]
pub struct HttpReply {
    pub status: u16,
    pub body: Result<String, String>,
}

/// The names and values of a list of headers.
pub open spec fn header_views(headers: Seq<(String, String)>) -> Seq<(Seq<char>, Seq<char>)> {
    headers.map_values(|h: (String, String)| (h.0@, h.1@))
}

/// Whether a status reports success: one of the 2xx.
pub open spec fn is_success(status: u16) -> bool {
    200 <= status < 300
}

/// The address of the endpoint `name` below the API origin `origin`.
pub open spec fn endpoint_url(origin: Seq<char>, name: Seq<char>) -> Seq<char> {
    origin + "/api/"@ + name + "/"@
}

/// The headers by which a request shows `token`.
pub open spec fn credential_headers(token: UpdateToken) -> Seq<(Seq<char>, Seq<char>)> {
    match token {
        UpdateToken::GithubToken(request) => seq![
            ("X-FIFTHTRY-GH-ACTIONS-ID-TOKEN-REQUEST-TOKEN"@, request.token@),
            ("X-FIFTHTRY-GH-ACTIONS-ID-TOKEN-REQUEST-URL"@, request.url@),
        ],
        UpdateToken::SiteToken(token) => seq![("X-FIFTHTRY-SITE-WRITE-TOKEN"@, token.0@)],
    }
}

/// Tests whether a status reports success.
pub fn status_is_success(status: u16) -> (success: bool)
    ensures
        success == is_success(status),
{
    200 <= status && status < 300
}

/// Builds the address of the endpoint `name` below the API origin `origin`.
pub fn endpoint(origin: &str, name: &str) -> (url: String)
    ensures
        url@ == endpoint_url(origin@, name@),
{
    let mut url = String::from_str(origin);
    url.append("/api/");
    url.append(name);
    url.append("/");
    url
}

/// Adds to `request` the headers by which it shows `token`, after those it
/// has. Nothing else of the request changes.
pub fn call_api<B>(request: ApiRequest<B>, token: &UpdateToken) -> (authorised: ApiRequest<B>)
    ensures
        authorised.url == request.url,
        authorised.body == request.body,
        header_views(authorised.headers@) == header_views(request.headers@) + credential_headers(
            *token,
        ),
{
    let ApiRequest { url, mut headers, body } = request;
    let ghost before = headers@;
    match token {
        UpdateToken::GithubToken(id) => {
            headers.push(
                (String::from_str("X-FIFTHTRY-GH-ACTIONS-ID-TOKEN-REQUEST-TOKEN"), id.token.clone()),
            );
            headers.push(
                (String::from_str("X-FIFTHTRY-GH-ACTIONS-ID-TOKEN-REQUEST-URL"), id.url.clone()),
            );
        },
        UpdateToken::SiteToken(site) => {
            headers.push((String::from_str("X-FIFTHTRY-SITE-WRITE-TOKEN"), site.0.clone()));
        },
    }
    assert(header_views(headers@) == header_views(before) + credential_headers(*token));
    ApiRequest { url, headers, body }
}

} // verus!
