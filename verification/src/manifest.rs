//! The remote manifest: what the store holds of a site, as it reported it.

use vstd::prelude::*;
use vstd::string::StringExecFns;
use crate::hash::{fingerprint, generate_hash};
use crate::http::{
    call_api, credential_headers, endpoint, endpoint_url, header_views, is_success,
    status_is_success, ApiRequest, HttpReply,
};
use crate::token::UpdateToken;

verus! {

/// What the store reports of one file's state. Which of the two a store
/// sends is fixed by its manifest protocol; an entry hides the difference
/// behind `fingerprint`.
#[derive(Debug)]
pub enum RemoteState {
    /// The fingerprint of the file's bytes.
    Fingerprint(String),
    /// The file's bytes themselves.
    Content(Vec<u8>),
}

/// One file of the remote manifest.
#[derive(Debug)]
pub struct RemoteManifestEntry {
    pub relative_path: String,
    pub state: RemoteState,
}

/// What a `RemoteManifestEntry` holds, with its state as a fingerprint.
pub struct RemoteEntryView {
    pub relative_path: Seq<char>,
    pub fingerprint: Seq<char>,
}

impl View for RemoteManifestEntry {
    type V = RemoteEntryView;

    open spec fn view(&self) -> RemoteEntryView {
        RemoteEntryView {
            relative_path: self.relative_path@,
            fingerprint: match self.state {
                RemoteState::Fingerprint(reported) => reported@,
                RemoteState::Content(content) => fingerprint(content@),
            },
        }
    }
}

/// The views of a manifest's entries.
pub open spec fn remote_views(entries: Seq<RemoteManifestEntry>) -> Seq<RemoteEntryView> {
    entries.map_values(|e: RemoteManifestEntry| e@)
}

impl RemoteManifestEntry {
    /// The fingerprint of the file as the store holds it: the one it
    /// reported, or that of the bytes it sent.
    pub fn fingerprint(&self) -> (print: String)
        ensures
            print@ == self@.fingerprint,
    {
        match &self.state {
            RemoteState::Fingerprint(reported) => reported.clone(),
            RemoteState::Content(content) => generate_hash(content.as_slice()),
        }
    }
}

/// Which of the two manifest protocols the store speaks. It is fixed when a
/// run is configured, and a manifest that does not follow it is refused.
#[derive(Clone, Copy, PartialEq, Eq, Structural, Debug)]
pub enum ManifestProtocol {
    /// Every entry reports a fingerprint.
    Fingerprints,
    /// Every entry carries the file's bytes.
    Contents,
}

/// What the manifest request asks for: the files of one site.
#[derive(Debug)]
pub struct ManifestQuery {
    pub site: String,
}

/// Why no manifest was fetched.
#[derive(Debug)]
pub enum ManifestFetchError {
    /// The store answered with a status that is no success: the address
    /// asked, and what the answer said.
    APIError { url: String, message: String },
    /// The request did not reach the store, or its answer did not arrive.
    TransportError(String),
    /// The answer is not a manifest of the configured protocol.
    DecodeError(String),
}

/// Whether an entry is of the kind that `protocol` sends.
pub open spec fn follows(protocol: ManifestProtocol, entry: RemoteManifestEntry) -> bool {
    match protocol {
        ManifestProtocol::Fingerprints => entry.state is Fingerprint,
        ManifestProtocol::Contents => entry.state is Content,
    }
}

/// Whether every entry is of the kind that `protocol` sends.
pub open spec fn all_follow(protocol: ManifestProtocol, entries: Seq<RemoteManifestEntry>) -> bool {
    forall|i: int| 0 <= i < entries.len() ==> follows(protocol, #[trigger] entries[i])
}

/// How a reply to the manifest request for `url` is read, before its body
/// is decoded: the text to decode, or why there is none.
pub open spec fn manifest_text(url: Seq<char>, call: Result<HttpReply, String>) -> Result<
    Seq<char>,
    ManifestFailure,
> {
    match call {
        Err(why) => Err(ManifestFailure::Transport(why@)),
        Ok(reply) => if is_success(reply.status) {
            match reply.body {
                Ok(text) => Ok(text@),
                Err(why) => Err(ManifestFailure::Transport(why@)),
            }
        } else {
            match reply.body {
                Ok(text) => Err(ManifestFailure::Api(url, text@)),
                Err(why) => Err(ManifestFailure::Api(url, why@)),
            }
        },
    }
}

/// What a `ManifestFetchError` holds.
pub enum ManifestFailure {
    Api(Seq<char>, Seq<char>),
    Transport(Seq<char>),
    Decode(Seq<char>),
}

impl View for ManifestFetchError {
    type V = ManifestFailure;

    open spec fn view(&self) -> ManifestFailure {
        match self {
            ManifestFetchError::APIError { url, message } => ManifestFailure::Api(url@, message@),
            ManifestFetchError::TransportError(why) => ManifestFailure::Transport(why@),
            ManifestFetchError::DecodeError(why) => ManifestFailure::Decode(why@),
        }
    }
}

/// What is said of a manifest that does not follow the configured protocol.
pub open spec fn protocol_mismatch() -> Seq<char> {
    "manifest entry does not follow the configured protocol"@
}

/// Builds the request for the manifest of `site`: it goes to the endpoint
/// `all-files`, shows `token`, and asks for that site alone.
pub fn fetch_request(api_origin: &str, site: &str, token: &UpdateToken) -> (request: ApiRequest<
    ManifestQuery,
>)
    ensures
        request.url@ == endpoint_url(api_origin@, "all-files"@),
        header_views(request.headers@) == credential_headers(*token),
        request.body.site@ == site@,
{
    let request = ApiRequest {
        url: endpoint(api_origin, "all-files"),
        headers: Vec::new(),
        body: ManifestQuery { site: String::from_str(site) },
    };
    assert(header_views(request.headers@) + credential_headers(*token) == credential_headers(
        *token,
    ));
    call_api(request, token)
}

/// Reads the reply to the manifest request for `url` up to its body: on a
/// success status the text that is to be decoded, else the error that the
/// reply stands for.
pub fn read_manifest_reply(url: &str, call: Result<HttpReply, String>) -> (result: Result<
    String,
    ManifestFetchError,
>)
    ensures
        match result {
            Ok(text) => manifest_text(url@, call) == Ok::<Seq<char>, ManifestFailure>(text@),
            Err(error) => manifest_text(url@, call) == Err::<Seq<char>, ManifestFailure>(error@),
        },
{
    match call {
        Err(why) => Err(ManifestFetchError::TransportError(why)),
        Ok(reply) => if status_is_success(reply.status) {
            match reply.body {
                Ok(text) => Ok(text),
                Err(why) => Err(ManifestFetchError::TransportError(why)),
            }
        } else {
            match reply.body {
                Ok(text) => Err(
                    ManifestFetchError::APIError { url: String::from_str(url), message: text },
                ),
                Err(why) => Err(
                    ManifestFetchError::APIError { url: String::from_str(url), message: why },
                ),
            }
        },
    }
}

/// Tests whether every entry is of the kind that `protocol` sends.
pub fn follows_protocol(protocol: ManifestProtocol, entries: &Vec<RemoteManifestEntry>) -> (ok: bool)
    ensures
        ok == all_follow(protocol, entries@),
{
    let mut i: usize = 0;
    while i < entries.len()
        invariant
            i <= entries@.len(),
            forall|j: int| 0 <= j < i ==> follows(protocol, #[trigger] entries@[j]),
        decreases entries@.len() - i,
    {
        let fits = match (protocol, &entries[i].state) {
            (ManifestProtocol::Fingerprints, RemoteState::Fingerprint(_)) => true,
            (ManifestProtocol::Contents, RemoteState::Content(_)) => true,
            _ => false,
        };
        if !fits {
            assert(!follows(protocol, entries@[i as int]));
            return false;
        }
        i += 1;
    }
    true
}

/// Accepts the decoded manifest of a store that speaks `protocol`.
///
/// The entries come back as they are where all of them follow the protocol.
/// An answer that could not be decoded is a `DecodeError` with its reason,
/// and so is one with an entry of the other protocol.
pub fn fetch(protocol: ManifestProtocol, decoded: Result<Vec<RemoteManifestEntry>, String>) -> (result:
    Result<Vec<RemoteManifestEntry>, ManifestFetchError>)
    ensures
        match decoded {
            Err(why) => result == Err::<Vec<RemoteManifestEntry>, _>(
                ManifestFetchError::DecodeError(why),
            ),
            Ok(entries) => if all_follow(protocol, entries@) {
                result == Ok::<_, ManifestFetchError>(entries)
            } else {
                result matches Err(ManifestFetchError::DecodeError(why)) && why@
                    == protocol_mismatch()
            },
        },
{
    match decoded {
        Err(why) => Err(ManifestFetchError::DecodeError(why)),
        Ok(entries) => if follows_protocol(protocol, &entries) {
            Ok(entries)
        } else {
            Err(
                ManifestFetchError::DecodeError(
                    String::from_str("manifest entry does not follow the configured protocol"),
                ),
            )
        },
    }
}

} // verus!
