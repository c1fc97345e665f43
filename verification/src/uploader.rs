//! The sink that takes the bytes of an upload: a local file that stands in
//! for the artifact while debugging, or the store behind a presigned
//! request.
//!
//! A sink decides what is done with each file's bytes and what its commit
//! sends. Writing to the local file and sending the request are the
//! caller's, who reports back how each went.

use std::collections::HashMap;
use vstd::prelude::*;
use vstd::string::StringExecFns;
use crate::initiate_upload::PreSignedRequest;

verus! {

/// Where the bytes of a session go.
#[derive(Debug)]
pub enum TransportDescriptor {
    /// To the store, by the request it presigned.
    Presigned(PreSignedRequest),
    /// To the local file at this path.
    Debug { local_path: String },
}

/// The sink of one upload.
#[derive(Debug)]
pub enum Uploader {
    /// The local file at this path takes the bytes as they come.
    File(String),
    /// The bytes are gathered and sent in one piece by this request.
    S3(PreSignedRequest, Vec<u8>),
}

/// Why a sink failed.
#[derive(Debug)]
pub enum UploaderError {
    /// A file could not be read, created or written.
    IOError(String),
    /// The artifact did not reach the store, or no answer arrived.
    S3(String),
    /// The store answered the artifact with this status, which is no
    /// success.
    Rejected(u16),
    /// The presigned request names this method, which is no HTTP method.
    InvalidMethod(String),
}

/// Bytes that are to be appended to the local file at `path`.
#[derive(Debug)]
pub struct FileWrite {
    pub path: String,
    pub bytes: Vec<u8>,
}

/// The one request that delivers the artifact.
#[derive(Debug)]
pub struct ArtifactRequest {
    pub method: String,
    pub url: String,
    pub headers: HashMap<String, String>,
    pub body: Vec<u8>,
}

/// The bytes of `uploads`, one after the other.
pub open spec fn gathered(uploads: Seq<Seq<u8>>) -> Seq<u8>
    decreases uploads.len(),
{
    if uploads.len() == 0 {
        Seq::empty()
    } else {
        gathered(uploads.drop_last()) + uploads.last()
    }
}

/// Whether `sinks` are the states of one sink that took `uploads` one by
/// one.
pub open spec fn takes_in_turn(sinks: Seq<Uploader>, uploads: Seq<Seq<u8>>) -> bool {
    &&& sinks.len() == uploads.len() + 1
    &&& forall|i: int|
        #![trigger uploads[i]]
        0 <= i < uploads.len() ==> sinks[i].after_upload(uploads[i], sinks[i + 1])
}

/// A sink for the store that took a number of files holds the bytes of all
/// of them, in the order in which it took them, behind what it held before;
/// and its request is still the one it was opened with.
pub proof fn lemma_sink_gathers_in_order(sinks: Seq<Uploader>, uploads: Seq<Seq<u8>>)
    requires
        takes_in_turn(sinks, uploads),
        sinks[0] is S3,
    ensures
        sinks.last() is S3,
        sinks.last()->S3_0 == sinks[0]->S3_0,
        sinks.last().staged() == sinks[0].staged() + gathered(uploads),
    decreases uploads.len(),
{
    if uploads.len() > 0 {
        let n = uploads.len() - 1;
        assert(takes_in_turn(sinks.drop_last(), uploads.drop_last())) by {
            assert forall|i: int|
                #![trigger uploads.drop_last()[i]]
                0 <= i < uploads.drop_last().len() implies sinks.drop_last()[i].after_upload(
                uploads.drop_last()[i],
                sinks.drop_last()[i + 1],
            ) by {
                assert(sinks[i].after_upload(uploads[i], sinks[i + 1]));
            }
        }
        lemma_sink_gathers_in_order(sinks.drop_last(), uploads.drop_last());
        assert(sinks[n].after_upload(uploads[n], sinks[n + 1]));
        assert(sinks.drop_last().last() == sinks[n]);
    }
}

/// Whether `c` may stand in an HTTP method: a letter or digit of ASCII, or
/// one of ``!#$%&'*+-.^_`|~``.
pub open spec fn is_method_char(c: char) -> bool {
    ||| 'a' <= c <= 'z'
    ||| 'A' <= c <= 'Z'
    ||| '0' <= c <= '9'
    ||| c == '!'
    ||| c == '#'
    ||| c == '$'
    ||| c == '%'
    ||| c == '&'
    ||| c == '\''
    ||| c == '*'
    ||| c == '+'
    ||| c == '-'
    ||| c == '.'
    ||| c == '^'
    ||| c == '_'
    ||| c == '`'
    ||| c == '|'
    ||| c == '~'
}

/// Whether `method` is an HTTP method: not empty, and made of method
/// characters alone.
pub open spec fn is_http_method(method: Seq<char>) -> bool {
    &&& method.len() > 0
    &&& forall|i: int| 0 <= i < method.len() ==> is_method_char(#[trigger] method[i])
}

/// Asks `reqwest::Method::from_bytes` whether it takes the bytes of
/// `method`. Trusted: it refuses the empty slice, and any other slice
/// exactly where one of its bytes is no method character of its table;
/// the bytes of a character beyond ASCII are none.
#[verifier::external_body]
fn method_is_accepted(method: &str) -> (accepted: bool)
    ensures
        accepted == is_http_method(method@),
{
    reqwest::Method::from_bytes(method.as_bytes()).is_ok()
}

impl Uploader {
    /// The bytes that the sink has gathered and not yet sent. A local file
    /// gathers none.
    pub open spec fn staged(self) -> Seq<u8> {
        match self {
            Uploader::File(_) => Seq::empty(),
            Uploader::S3(_, bytes) => bytes@,
        }
    }

    /// Whether a commit of the sink can be sent: a local file always, the
    /// store where the presigned request names an HTTP method.
    pub open spec fn can_commit(self) -> bool {
        match self {
            Uploader::File(_) => true,
            Uploader::S3(request, _) => is_http_method(request.method@),
        }
    }

    /// What `upload` asks the caller to write, for bytes `bytes`.
    pub open spec fn writes(self, bytes: Seq<u8>, write: Option<FileWrite>) -> bool {
        match self {
            Uploader::File(path) => write matches Some(w) && w.path@ == path@ && w.bytes@ == bytes,
            Uploader::S3(_, _) => write is None,
        }
    }

    /// The sink after `bytes` were handed to it.
    pub open spec fn after_upload(self, bytes: Seq<u8>, after: Uploader) -> bool {
        match self {
            Uploader::File(path) => after == self,
            Uploader::S3(request, staged) => after matches Uploader::S3(r, s) && r == request
                && s@ == staged@ + bytes,
        }
    }

    /// What `commit` hands back.
    pub open spec fn commits(self, request: Option<ArtifactRequest>) -> bool {
        match self {
            Uploader::File(_) => request is None,
            Uploader::S3(presigned, staged) => request matches Some(r) && r.method
                == presigned.method && r.url == presigned.url && r.headers == presigned.headers
                && r.body == staged,
        }
    }

    /// Whether `error` is why the commit of the sink cannot be sent.
    pub open spec fn refuses(self, error: UploaderError) -> bool {
        match self {
            Uploader::File(_) => false,
            Uploader::S3(presigned, _) => error == UploaderError::InvalidMethod(presigned.method),
        }
    }

    /// The sink for the local file at `path`, which the caller has tried to
    /// create: `created` says how that went.
    pub fn debug(path: &str, created: Result<(), String>) -> (result: Result<Uploader, UploaderError>)
        ensures
            match created {
                Ok(_) => result matches Ok(Uploader::File(p)) && p@ == path@,
                Err(why) => result == Err::<Uploader, _>(UploaderError::IOError(why)),
            },
    {
        match created {
            Ok(_) => Ok(Uploader::File(String::from_str(path))),
            Err(why) => Err(UploaderError::IOError(why)),
        }
    }

    /// The sink for the store behind the presigned request `sr`. It starts
    /// with nothing gathered.
    pub fn s3(sr: PreSignedRequest) -> (uploader: Uploader)
        ensures
            uploader matches Uploader::S3(request, staged) && request == sr && staged@.len() == 0,
    {
        Uploader::S3(sr, Vec::new())
    }

    /// The sink that `descriptor` asks for. For a local file the caller has
    /// tried to create it: `created` says how that went.
    pub fn open(descriptor: TransportDescriptor, created: Result<(), String>) -> (result: Result<
        Uploader,
        UploaderError,
    >)
        ensures
            match descriptor {
                TransportDescriptor::Presigned(sr) => result matches Ok(Uploader::S3(request, staged))
                    && request == sr && staged@.len() == 0,
                TransportDescriptor::Debug { local_path } => match created {
                    Ok(_) => result matches Ok(Uploader::File(p)) && p@ == local_path@,
                    Err(why) => result == Err::<Uploader, _>(UploaderError::IOError(why)),
                },
            },
    {
        match descriptor {
            TransportDescriptor::Presigned(sr) => Ok(Uploader::s3(sr)),
            TransportDescriptor::Debug { local_path } => Uploader::debug(local_path.as_str(), created),
        }
    }

    /// Hands one file to the sink. `read` holds the file's bytes, or why
    /// they could not be read.
    ///
    /// A file that could not be read fails the upload and leaves the sink
    /// as it was. Otherwise a local file asks the caller to append the
    /// bytes to it, and the store's sink gathers them behind those it has.
    pub fn upload(&mut self, read: Result<Vec<u8>, String>) -> (result: Result<
        Option<FileWrite>,
        UploaderError,
    >)
        ensures
            match read {
                Err(why) => *final(self) == *old(self) && result == Err::<Option<FileWrite>, _>(
                    UploaderError::IOError(why),
                ),
                Ok(bytes) => {
                    &&& old(self).after_upload(bytes@, *final(self))
                    &&& result matches Ok(write) && old(self).writes(bytes@, write)
                },
            },
    {
        match read {
            Err(why) => Err(UploaderError::IOError(why)),
            Ok(mut bytes) => match self {
                Uploader::File(path) => Ok(Some(FileWrite { path: path.clone(), bytes })),
                Uploader::S3(_, staged) => {
                    staged.append(&mut bytes);
                    Ok(None)
                },
            },
        }
    }

    /// Reads how the write that `upload` asked for went.
    pub fn written(outcome: Result<(), String>) -> (result: Result<(), UploaderError>)
        ensures
            match outcome {
                Ok(_) => result is Ok,
                Err(why) => result == Err::<(), _>(UploaderError::IOError(why)),
            },
    {
        match outcome {
            Ok(_) => Ok(()),
            Err(why) => Err(UploaderError::IOError(why)),
        }
    }

    /// Tests whether a commit of the sink can be sent.
    pub fn is_committable(&self) -> (ok: bool)
        ensures
            ok == self.can_commit(),
    {
        match self {
            Uploader::File(_) => true,
            Uploader::S3(request, _) => method_is_accepted(request.method.as_str()),
        }
    }

    /// Ends the upload. For the store this is the one request that delivers
    /// the artifact: the method, address and headers of the presigned
    /// request, and for body all the bytes gathered, in the order they were
    /// handed over. A local file has nothing left to do.
    pub fn commit(self) -> (request: Option<ArtifactRequest>)
        requires
            self.can_commit(),
        ensures
            self.commits(request),
    {
        match self {
            Uploader::File(_) => None,
            Uploader::S3(presigned, staged) => {
                let PreSignedRequest { url, method, headers } = presigned;
                Some(ArtifactRequest { method, url, headers, body: staged })
            },
        }
    }

    /// Ends the upload, whatever the presigned request holds: as `commit`
    /// does where the commit can be sent, and with `InvalidMethod` and the
    /// method that the request names where it cannot.
    pub fn try_commit(self) -> (result: Result<Option<ArtifactRequest>, UploaderError>)
        ensures
            match result {
                Ok(request) => self.can_commit() && self.commits(request),
                Err(error) => !self.can_commit() && self.refuses(error),
            },
    {
        if self.is_committable() {
            Ok(self.commit())
        } else {
            match self {
                Uploader::File(_) => Ok(None),
                Uploader::S3(presigned, _) => Err(UploaderError::InvalidMethod(presigned.method)),
            }
        }
    }

    /// Reads how the request that `commit` asked for went: the status of
    /// the reply, or why there was none.
    pub fn sent(outcome: Result<u16, String>) -> (result: Result<(), UploaderError>)
        ensures
            match outcome {
                Err(why) => result == Err::<(), _>(UploaderError::S3(why)),
                Ok(status) => if crate::http::is_success(status) {
                    result is Ok
                } else {
                    result == Err::<(), _>(UploaderError::Rejected(status))
                },
            },
    {
        match outcome {
            Err(why) => Err(UploaderError::S3(why)),
            Ok(status) => if crate::http::status_is_success(status) {
                Ok(())
            } else {
                Err(UploaderError::Rejected(status))
            },
        }
    }
}

} // verus!
