use enseada::containers::complete::{completion_step, Completion, CompletionAction, CompletionEvent};
use enseada::containers::error::{Error, ErrorCode};
use enseada::containers::handler::manifest::{manifest_kind, manifest_request, ManifestKind};
use enseada::containers::handler::repo::{repo_conflict, repo_not_found, RepoResponse};
use enseada::containers::handler::NameParams;
use enseada::containers::manifest::oci_v1::{ImageIndex, ImageManifest, ImageManifestLayer};
use enseada::containers::mime::{IMAGE_INDEX, IMAGE_LAYER, IMAGE_MANIFEST};
use enseada::containers::name::{is_valid_name, Name};
use enseada::containers::repo::Repo;
use enseada::containers::storage::{blob_key, chunk_key};
use enseada::containers::upload::{assemble_blob, range_header, upload_found, HeaderText, Upload, UploadChunk};
use enseada::guid::Guid;
use enseada::http::error::ApiError;

#[test]
fn names_are_written_and_read() {
    let n = Name::new("library".into(), "ubuntu".into());
    assert_eq!(n.to_string(), "library/ubuntu");
    let p = Name::parse("library/ubuntu");
    assert_eq!((p.group(), p.name()), ("library", "ubuntu"));
    let p = Name::parse("a/b/c");
    assert_eq!((p.group(), p.name()), ("a", "c"));
    let p = Name::parse("solo");
    assert_eq!((p.group(), p.name()), ("solo", "solo"));
}

#[test]
fn name_validity() {
    assert!(is_valid_name("library", "ubuntu"));
    assert!(is_valid_name("my-group", "img.v2"));
    assert!(!is_valid_name("UPPER", "ubuntu"));
    assert!(!is_valid_name("library", "---"));
    assert!(is_valid_name("Mixed", "x"));
}

#[test]
fn storage_keys() {
    assert_eq!(chunk_key("u1", 42), "artifacts/oci/uploads/u1/chunks/42");
    assert_eq!(chunk_key("u1", 0), "artifacts/oci/uploads/u1/chunks/0");
    assert_eq!(blob_key("sha256:abc"), "artifacts/oci/blobs/sha256:abc");
}

#[test]
fn chunks_from_request_headers() {
    let c = UploadChunk::from_request(HeaderText::Text("10".into()), HeaderText::Absent, vec![1, 2]).unwrap();
    assert_eq!((c.start_range(), c.end_range()), (0, 10));
    assert!(c.storage_key().is_none());
    let c = UploadChunk::from_request(HeaderText::Text("5".into()), HeaderText::Text("5-9".into()), vec![]).unwrap();
    assert_eq!((c.start_range(), c.end_range()), (5, 9));
    let e = UploadChunk::from_request(HeaderText::Absent, HeaderText::Absent, vec![]).unwrap_err();
    assert_eq!(e.code(), ErrorCode::Unsupported);
    assert_eq!(e.message(), "Content-Length header is missing");
    let e = UploadChunk::from_request(HeaderText::NotText, HeaderText::Absent, vec![]).unwrap_err();
    assert_eq!(e.message(), "the operation is unsupported");
    let e = UploadChunk::from_request(HeaderText::Text("1".into()), HeaderText::NotText, vec![]).unwrap_err();
    assert_eq!(e.code(), ErrorCode::Unsupported);
}

#[test]
fn chunk_content_is_taken_once() {
    let mut c = UploadChunk::new(0, 3, vec![7, 8, 9]);
    assert_eq!(c.take_content(), vec![7, 8, 9]);
    assert!(c.take_content().is_empty());
}

#[test]
fn uploads_collect_chunks_in_offset_order() {
    let mut up = Upload::start(Name::new("g".into(), "n".into()));
    assert_eq!(up.id().partition(), Some("upload".to_string()));
    assert_eq!(up.id().id().len(), 36);
    assert_eq!(up.latest_offset(), 0);
    let id = up.id().id().to_string();
    up.add_chunk(UploadChunk::new(10, 20, vec![]));
    up.add_chunk(UploadChunk::new(0, 5, vec![]));
    up.add_chunk(UploadChunk::new(5, 10, vec![]));
    assert_eq!(up.latest_offset(), 10);
    assert_eq!(up.chunks().len(), 3);
    let order = up.chunk_order();
    assert_eq!(order, vec![1, 2, 0]);
    let keys = up.chunk_keys_in(&order);
    assert_eq!(keys[0], format!("artifacts/oci/uploads/{}/chunks/0", id));
    assert_eq!(keys[1], format!("artifacts/oci/uploads/{}/chunks/5", id));
    assert_eq!(keys[2], format!("artifacts/oci/uploads/{}/chunks/10", id));
    assert_eq!(range_header(&up), "bytes=0-10");
}

#[test]
fn equal_offsets_keep_arrival_order() {
    let mut up = Upload::from_parts(Guid::partitioned("upload", "x"), None, Name::new("g".into(), "n".into()), vec![], 0);
    up.add_chunk(UploadChunk::new(4, 8, vec![]));
    up.add_chunk(UploadChunk::new(0, 4, vec![]));
    up.add_chunk(UploadChunk::new(4, 8, vec![]));
    assert_eq!(up.chunk_order(), vec![1, 0, 2]);
}

#[test]
fn blobs_are_assembled_in_order() {
    assert_eq!(assemble_blob(vec![vec![1, 2], vec![], vec![3]], vec![4, 5]), vec![1, 2, 3, 4, 5]);
    assert_eq!(assemble_blob(vec![], vec![]), Vec::<u8>::new());
}

#[test]
fn missing_uploads_are_unknown() {
    let e = upload_found(None).unwrap_err();
    assert_eq!(e.code(), ErrorCode::BlobUploadUnknown);
    assert_eq!(e.message(), "blob upload unknown to registry");
    assert_eq!(ErrorCode::BlobUploadUnknown.as_str(), "BLOB_UPLOAD_UNKNOWN");
    let up = Upload::from_parts(Guid::partitioned("upload", "x"), Some("1-a".into()), Name::new("g".into(), "n".into()), vec![], 7);
    assert_eq!(upload_found(Some(up)).unwrap().latest_offset(), 7);
}

#[test]
fn repositories() {
    let repo = Repo::new(Name::new("g".into(), "n".into()));
    assert_eq!(repo.id().partition(), Some("repo".to_string()));
    assert_eq!(repo.rev(), None);
    let res = RepoResponse::from_repo(&repo);
    assert_eq!(res.id, repo.id().id());
    assert_eq!((res.group.as_str(), res.name.as_str()), ("g", "n"));
    let mut repo = Repo::from_parts(Guid::partitioned("repo", "1"), None, "g".into(), "n".into());
    repo.set_rev("2-b".into());
    assert_eq!(repo.rev(), Some("2-b".to_string()));
    assert_eq!(Repo::build_guid("1").to_string(), "repo:1");
}

#[test]
fn repository_errors() {
    let name = Name::new("g".into(), "n".into());
    assert!(matches!(repo_conflict(&name), ApiError::Conflict(m) if m == "a repo with coordinates g/n already exists"));
    assert!(matches!(repo_not_found("42"), ApiError::NotFound(m) if m == "repo '42' not found"));
}

#[test]
fn manifest_kinds() {
    assert_eq!(manifest_kind(None), ManifestKind::Index);
    assert_eq!(manifest_kind(Some("*/*")), ManifestKind::Index);
    assert_eq!(manifest_kind(Some(IMAGE_INDEX)), ManifestKind::Index);
    assert_eq!(manifest_kind(Some(IMAGE_MANIFEST)), ManifestKind::Image);
    assert_eq!(manifest_kind(Some("text/plain")), ManifestKind::Unsupported);
}

#[test]
fn manifest_requests() {
    let p = |g: &str, n: &str| NameParams { group: g.into(), name: n.into() };
    let (name, kind) = manifest_request(p("g", "n"), Some(IMAGE_MANIFEST)).unwrap();
    assert_eq!(name.to_string(), "g/n");
    assert_eq!(kind, ManifestKind::Image);
    assert_eq!(manifest_request(p("g", "n"), None).unwrap().1, ManifestKind::Index);
    assert_eq!(manifest_request(p("G", "N"), None).unwrap_err(), ErrorCode::NameInvalid);
    assert_eq!(manifest_request(p("g", "n"), Some("text/plain")).unwrap_err(), ErrorCode::Unsupported);
    let n: Name = NameParams { group: "a".into(), name: "b".into() }.into();
    assert_eq!(n.to_string(), "a/b");
}

#[test]
fn oci_documents() {
    let name = Name::new("g".into(), "n".into());
    assert_eq!(ImageIndex::build_guid(&name).to_string(), format!("{}:g/n", IMAGE_INDEX));
    assert_eq!(ImageManifest::build_guid(&name).to_string(), format!("{}:g/n", IMAGE_MANIFEST));
    let layer = ImageManifestLayer::new(10, "d".into(), vec![]);
    assert_eq!(layer.media_type, IMAGE_LAYER);
    let idx = ImageIndex::new(vec![]);
    assert_eq!(idx.schema_version, 2);
}

#[test]
fn error_codes() {
    let e = Error::from(ErrorCode::NameInvalid);
    assert_eq!(e.code(), ErrorCode::NameInvalid);
    assert_eq!(e.message(), "invalid repository name");
    let e = Error::new(ErrorCode::DigestInvalid, "bad digest");
    assert_eq!(e.message(), "bad digest");
    assert_eq!(ErrorCode::ManifestUnknown.as_str(), "MANIFEST_UNKNOWN");
}

#[test]
fn chunk_keys_are_distinct_per_offset() {
    let keys: Vec<String> = [0usize, 1, 10, 100, 101].iter().map(|o| chunk_key("u", *o)).collect();
    for i in 0..keys.len() {
        for j in 0..keys.len() {
            assert_eq!(keys[i] == keys[j], i == j);
        }
    }
}

#[test]
fn error_code_statuses() {
    assert_eq!(ErrorCode::NameInvalid.status_code(), 400);
    assert_eq!(ErrorCode::BlobUploadUnknown.status_code(), 404);
    assert_eq!(ErrorCode::Unsupported.status_code(), 405);
    assert_eq!(ErrorCode::DigestInvalid.status_code(), 400);
}

#[test]
fn latest_offset_is_the_end_of_the_last_chunk_added() {
    let mut up = Upload::start(Name::new("g".into(), "n".into()));
    assert_eq!(up.latest_offset(), 0);
    up.add_chunk(UploadChunk::new(0, 100, vec![1; 100]));
    assert_eq!(up.latest_offset(), 100);
    up.add_chunk(UploadChunk::new(0, 50, vec![2; 50]));
    assert_eq!(up.latest_offset(), 50);
    assert_eq!(up.chunks().len(), 2);
}

/// Completes an upload against a map of stored chunks; returns the result,
/// the blob stored (key and content) and whether the upload was deleted.
fn complete_against(
    upload: &Upload,
    digest: &str,
    last: &Vec<u8>,
    chunks: &mut std::collections::HashMap<String, Vec<u8>>,
) -> (Result<(), Error>, Option<(String, Vec<u8>)>, bool) {
    let mut state = Completion::Start;
    let mut event = CompletionEvent::Started;
    let mut stored = None;
    let mut deleted = false;
    loop {
        assert!(state.expects(&event));
        let (next, action) = completion_step(upload, digest, last, state, event);
        state = next;
        event = match action {
            CompletionAction::FetchChunk { key } => CompletionEvent::ChunkFetched { content: Ok(chunks.get(&key).cloned()) },
            CompletionAction::DeleteChunk { key } => {
                chunks.remove(&key);
                CompletionEvent::ChunkDeleted { outcome: Ok(()) }
            }
            CompletionAction::StoreBlob { key, content } => {
                stored = Some((key, content));
                CompletionEvent::BlobStored { outcome: Ok(()) }
            }
            CompletionAction::DeleteUpload => {
                deleted = true;
                CompletionEvent::UploadDeleted { outcome: Ok(()) }
            }
            CompletionAction::Finish { result } => return (result, stored, deleted),
        };
    }
}

#[test]
fn completing_an_upload_joins_chunks_by_offset_and_deletes_them() {
    let mut up = Upload::from_parts(Guid::partitioned("upload", "u1"), Some("1-a".into()), Name::new("g".into(), "n".into()), vec![], 0);
    up.add_chunk(UploadChunk::new(3, 6, vec![]));
    up.add_chunk(UploadChunk::new(0, 3, vec![]));
    let mut chunks = std::collections::HashMap::new();
    chunks.insert(chunk_key("u1", 0), vec![1, 2, 3]);
    chunks.insert(chunk_key("u1", 3), vec![4, 5, 6]);
    let (result, stored, deleted) = complete_against(&up, "sha256:abc", &vec![7, 8], &mut chunks);
    assert!(result.is_ok());
    assert_eq!(stored, Some((blob_key("sha256:abc"), vec![1, 2, 3, 4, 5, 6, 7, 8])));
    assert!(chunks.is_empty());
    assert!(deleted);
}

#[test]
fn completing_with_a_missing_chunk_is_blob_unknown() {
    let mut up = Upload::from_parts(Guid::partitioned("upload", "u1"), Some("1-a".into()), Name::new("g".into(), "n".into()), vec![], 0);
    up.add_chunk(UploadChunk::new(0, 3, vec![]));
    let mut chunks = std::collections::HashMap::new();
    let (result, stored, deleted) = complete_against(&up, "d", &vec![], &mut chunks);
    assert_eq!(result.unwrap_err().code(), ErrorCode::BlobUnknown);
    assert!(stored.is_none());
    assert!(!deleted);
}

#[test]
fn completing_without_chunks_stores_the_final_chunk() {
    let up = Upload::from_parts(Guid::partitioned("upload", "u1"), Some("1-a".into()), Name::new("g".into(), "n".into()), vec![], 0);
    let mut chunks = std::collections::HashMap::new();
    let (result, stored, _) = complete_against(&up, "d", &vec![9], &mut chunks);
    assert!(result.is_ok());
    assert_eq!(stored, Some((blob_key("d"), vec![9])));
}
