use stathost::config::{default_buckets_dir, default_host, default_port, ServerConfig};
use stathost::ops::{
    authorize, delete_status, effective_request_path, read_headers, read_status, upload_step,
    OpError, OpenOutcome, RemoveOutcome, UploadEvent, UploadStep,
};

#[test]
fn index_page_rule() {
    assert_eq!(effective_request_path(""), "index.html");
    assert_eq!(effective_request_path("dir/"), "dir/index.html");
    assert_eq!(effective_request_path("a/b/"), "a/b/index.html");
    assert_eq!(effective_request_path("a/b"), "a/b");
    assert_eq!(effective_request_path("index.html"), "index.html");
}

#[test]
fn authorization_error_taxonomy() {
    assert_eq!(authorize(None, None).unwrap_err(), OpError::BucketNotFound);
    assert_eq!(
        authorize(None, Some("token1")).unwrap_err(),
        OpError::BucketNotFound
    );
}

#[test]
fn delete_of_missing_file_is_not_found() {
    assert_eq!(delete_status(RemoveOutcome::Done), Ok(()));
    assert_eq!(
        delete_status(RemoveOutcome::Missing),
        Err(OpError::NotFound)
    );
    assert_eq!(
        delete_status(RemoveOutcome::Failed),
        Err(OpError::InternalError)
    );
    assert_ne!(
        delete_status(RemoveOutcome::Missing),
        Err(OpError::InternalError)
    );
}

#[test]
fn read_of_missing_file_is_not_found() {
    assert_eq!(read_status(OpenOutcome::Opened), Ok(()));
    assert_eq!(read_status(OpenOutcome::Missing), Err(OpError::NotFound));
    assert_eq!(
        read_status(OpenOutcome::Failed),
        Err(OpError::InternalError)
    );
    assert_ne!(
        read_status(OpenOutcome::Missing),
        Err(OpError::InternalError)
    );
}

#[test]
fn upload_stream_decisions() {
    assert_eq!(
        upload_step(UploadEvent::Chunk { write_ok: true }),
        UploadStep::Continue
    );
    assert_eq!(
        upload_step(UploadEvent::Chunk { write_ok: false }),
        UploadStep::Reject(OpError::InternalError)
    );
    assert_eq!(
        upload_step(UploadEvent::StreamError),
        UploadStep::Reject(OpError::BadRequest)
    );
    assert_eq!(upload_step(UploadEvent::Finished), UploadStep::Created);
}

#[test]
fn served_metadata_carries_media_type_and_length() {
    let (mime, len) = read_headers("site/index.html", 21);
    assert_eq!(mime, "text/html");
    assert_eq!(len, 21);
    let (mime, _) = read_headers("assets/style.css", 7);
    assert_eq!(mime, "text/css");
    let (mime, _) = read_headers("data.unknownext", 0);
    assert_eq!(mime, "application/octet-stream");
}

#[test]
fn configuration_defaults() {
    assert_eq!(default_host(), "0.0.0.0");
    assert_eq!(default_port(), 8080);
    assert_eq!(default_buckets_dir(), "./buckets");
    let config = ServerConfig::default();
    assert_eq!(config.host, "0.0.0.0");
    assert_eq!(config.port, 8080);
    assert_eq!(config.buckets_dir, "./buckets");
}
