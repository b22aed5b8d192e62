//! The outcome taxonomy of the file operations and the decisions each
//! operation makes: which error a request fails with, which path a request
//! resolves to, and what metadata a served file carries.  The boundary
//! layer performs the I/O between these decisions and maps the outcomes to
//! transport status codes.

use vstd::prelude::*;

use crate::bucket::Bucket;
use crate::guard::is_protected_spec;
use crate::paths::{join_spec, trim_slash_spec};

verus! {

/// Every way a file operation can fail.  Filesystem and configuration
/// failures are mapped to these kinds at the component boundary; no raw
/// I/O error reaches a caller.
#[derive(Clone, Copy, Debug, PartialEq, Eq, Structural)]
pub enum OpError {
    /// The bucket name fails validation, no such bucket directory exists,
    /// or its configuration cannot be loaded — indistinguishable by design.
    BucketNotFound,
    /// No credential was presented where one is required.
    Unauthorized,
    /// A credential was presented but does not match the bucket's.
    Forbidden,
    /// The relative path fails validation: a protected-path collision or a
    /// confinement failure.
    InvalidPath,
    /// A validated path does not correspond to an existing file.
    NotFound,
    /// The request's input stream was malformed or truncated.
    BadRequest,
    /// An unexpected filesystem failure.
    InternalError,
}

/// The index-page rule: a request path that is empty or ends in `/` asks
/// for `index.html` inside that directory.
pub open spec fn effective_path_spec(raw: Seq<char>) -> Seq<char> {
    if raw.len() == 0 || raw[raw.len() - 1] == '/' {
        raw + "index.html"@
    } else {
        raw
    }
}

/// Applies the index-page rule to a request path, before validation.
pub fn effective_request_path(raw: &str) -> (r: String)
    ensures
        r@ == effective_path_spec(raw@),
{
    let n = raw.unicode_len();
    if n == 0 || raw.get_char(n - 1) == '/' {
        raw.to_owned().concat("index.html")
    } else {
        raw.to_owned()
    }
}

/// The authorization decision shared by write, delete and list: the bucket
/// must exist, a credential must be presented, and it must match the
/// bucket's.
pub fn authorize<'a>(bucket: Option<&'a Bucket>, credential: Option<&str>) -> (r: Result<
    &'a Bucket,
    OpError,
>)
    ensures
        bucket is None <==> r == Err::<&'a Bucket, OpError>(OpError::BucketNotFound),
        (bucket is Some && credential is None) <==> r == Err::<&'a Bucket, OpError>(
            OpError::Unauthorized,
        ),
        (bucket is Some && credential is Some && bucket->0.config.auth.token@ != credential->0@)
            <==> r == Err::<&'a Bucket, OpError>(OpError::Forbidden),
        r is Ok <==> (bucket is Some && credential is Some && bucket->0.config.auth.token@
            == credential->0@),
        r is Ok ==> r->Ok_0 == bucket->0,
{
    let b = match bucket {
        Some(b) => b,
        None => {
            return Err(OpError::BucketNotFound);
        },
    };
    let c = match credential {
        Some(c) => c,
        None => {
            return Err(OpError::Unauthorized);
        },
    };
    if !b.validate_token(c) {
        return Err(OpError::Forbidden);
    }
    Ok(b)
}

/// The decision a write or delete request goes through before any I/O on
/// the target: authorization, then path validation inside the bucket.
pub fn plan_mutation(bucket: Option<&Bucket>, credential: Option<&str>, file_path: &str) -> (r:
    Result<String, OpError>)
    ensures
        bucket is None <==> r == Err::<String, OpError>(OpError::BucketNotFound),
        (bucket is Some && credential is None) <==> r == Err::<String, OpError>(
            OpError::Unauthorized,
        ),
        (bucket is Some && credential is Some && bucket->0.config.auth.token@ != credential->0@)
            <==> r == Err::<String, OpError>(OpError::Forbidden),
        (bucket is Some && credential is Some && bucket->0.config.auth.token@ == credential->0@
            && is_protected_spec(trim_slash_spec(file_path@))) ==> r == Err::<String, OpError>(
            OpError::InvalidPath,
        ),
        r is Ok ==> bucket is Some && credential is Some && bucket->0.config.auth.token@
            == credential->0@,
        r is Ok ==> !is_protected_spec(trim_slash_spec(file_path@)) && r->Ok_0@ == join_spec(
            bucket->0.path@,
            trim_slash_spec(file_path@),
        ),
        r is Err ==> (r->Err_0 == OpError::BucketNotFound || r->Err_0 == OpError::Unauthorized
            || r->Err_0 == OpError::Forbidden || r->Err_0 == OpError::InvalidPath),
{
    let b = match authorize(bucket, credential) {
        Ok(b) => b,
        Err(e) => {
            return Err(e);
        },
    };
    match b.resolve_path(file_path) {
        Some(p) => Ok(p),
        None => Err(OpError::InvalidPath),
    }
}

/// The decision a read request goes through before the file is opened: the
/// bucket must exist (no credential is required to read), the index-page
/// rule is applied, and the path must validate inside the bucket.
pub fn plan_read(bucket: Option<&Bucket>, raw_path: &str) -> (r: Result<String, OpError>)
    ensures
        bucket is None <==> r == Err::<String, OpError>(OpError::BucketNotFound),
        (bucket is Some && is_protected_spec(trim_slash_spec(effective_path_spec(raw_path@)))) ==> r
            == Err::<String, OpError>(OpError::InvalidPath),
        r is Ok ==> bucket is Some && !is_protected_spec(
            trim_slash_spec(effective_path_spec(raw_path@)),
        ) && r->Ok_0@ == join_spec(
            bucket->0.path@,
            trim_slash_spec(effective_path_spec(raw_path@)),
        ),
        r is Err ==> (r->Err_0 == OpError::BucketNotFound || r->Err_0 == OpError::InvalidPath),
{
    let b = match bucket {
        Some(b) => b,
        None => {
            return Err(OpError::BucketNotFound);
        },
    };
    let eff = effective_request_path(raw_path);
    match b.resolve_path(eff.as_str()) {
        Some(p) => Ok(p),
        None => Err(OpError::InvalidPath),
    }
}

/// What the boundary layer observed when it removed the target file.
#[derive(Clone, Copy, Debug, PartialEq, Eq, Structural)]
pub enum RemoveOutcome {
    /// The file existed and was removed.
    Done,
    /// No file existed at the target.
    Missing,
    /// The filesystem failed in some other way.
    Failed,
}

/// The outcome of a delete: removing a file that is not there is reported
/// as `NotFound`, never as an internal failure, so deletion is idempotent
/// at the error-taxonomy level.
pub fn delete_status(outcome: RemoveOutcome) -> (r: Result<(), OpError>)
    ensures
        outcome == RemoveOutcome::Done <==> r is Ok,
        outcome == RemoveOutcome::Missing <==> r == Err::<(), OpError>(OpError::NotFound),
        outcome == RemoveOutcome::Failed <==> r == Err::<(), OpError>(OpError::InternalError),
{
    match outcome {
        RemoveOutcome::Done => Ok(()),
        RemoveOutcome::Missing => Err(OpError::NotFound),
        RemoveOutcome::Failed => Err(OpError::InternalError),
    }
}

/// What the boundary layer observed when it opened the target file for
/// reading.
#[derive(Clone, Copy, Debug, PartialEq, Eq, Structural)]
pub enum OpenOutcome {
    /// The file existed and was opened.
    Opened,
    /// No file existed at the target.
    Missing,
    /// The filesystem failed in some other way.
    Failed,
}

/// The outcome of opening a file to serve it: a missing file is reported
/// as `NotFound`, and every other I/O failure as an internal error, never
/// the other way around.
pub fn read_status(outcome: OpenOutcome) -> (r: Result<(), OpError>)
    ensures
        outcome == OpenOutcome::Opened <==> r is Ok,
        outcome == OpenOutcome::Missing <==> r == Err::<(), OpError>(OpError::NotFound),
        outcome == OpenOutcome::Failed <==> r == Err::<(), OpError>(OpError::InternalError),
{
    match outcome {
        OpenOutcome::Opened => Ok(()),
        OpenOutcome::Missing => Err(OpError::NotFound),
        OpenOutcome::Failed => Err(OpError::InternalError),
    }
}

/// One step of consuming an upload's byte stream.
#[derive(Clone, Copy, Debug, PartialEq, Eq, Structural)]
pub enum UploadEvent {
    /// A chunk arrived; `write_ok` says whether persisting it succeeded.
    Chunk { write_ok: bool },
    /// The inbound stream failed mid-transfer.
    StreamError,
    /// The stream ended.
    Finished,
}

/// What the upload loop does after one event.
#[derive(Clone, Copy, Debug, PartialEq, Eq, Structural)]
pub enum UploadStep {
    /// Keep consuming the stream.
    Continue,
    /// Stop and fail the request with this error.
    Reject(OpError),
    /// Stop: the file was created.
    Created,
}

/// The decision after each upload event: a failed write is an internal
/// failure, a broken inbound stream is the client's bad request, and a
/// finished stream means the file was created.
pub fn upload_step(event: UploadEvent) -> (r: UploadStep)
    ensures
        event == (UploadEvent::Chunk { write_ok: true }) <==> r == UploadStep::Continue,
        event == (UploadEvent::Chunk { write_ok: false }) <==> r == UploadStep::Reject(
            OpError::InternalError,
        ),
        event == UploadEvent::StreamError <==> r == UploadStep::Reject(OpError::BadRequest),
        event == UploadEvent::Finished <==> r == UploadStep::Created,
{
    match event {
        UploadEvent::Chunk { write_ok: true } => UploadStep::Continue,
        UploadEvent::Chunk { write_ok: false } => UploadStep::Reject(OpError::InternalError),
        UploadEvent::StreamError => UploadStep::Reject(OpError::BadRequest),
        UploadEvent::Finished => UploadStep::Created,
    }
}

/// The media type that the filename's extension determines.
pub uninterp spec fn mime_of(path: Seq<char>) -> Seq<char>;

/// Relies on `mime_guess::from_path` and `MimeGuess::first_or_octet_stream`:
/// the media type guessed from the path's extension, with
/// `application/octet-stream` as the fallback.  The result is a function of
/// the path alone.
#[verifier::external_body]
fn guess_mime(path: &str) -> (r: String)
    ensures
        r@ == mime_of(path@),
{
    mime_guess::from_path(path).first_or_octet_stream().to_string()
}

/// The response metadata of a served file: its media type, from the
/// filename extension, and its exact byte length.
pub fn read_headers(path: &str, length: u64) -> (r: (String, u64))
    ensures
        r.0@ == mime_of(path@),
        r.1 == length,
{
    (guess_mime(path), length)
}

} // verus!
