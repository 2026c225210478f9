use vstd::prelude::*;

use crate::files::{LinkFile, StoredFile};
use crate::text::clone_opt;

verus! {

#[derive(Debug, Clone)]
pub struct UploadFileResponse {
    pub id: String,
    pub url: String,
}
/// The fields of a `UploadFileResponse` taken from a `StoredFile`.
pub open spec fn uploadfileresponse_of(r: UploadFileResponse, stored: StoredFile) -> bool {
    &&& r.id == stored.file.id
    &&& r.url == stored.url
}

impl UploadFileResponse {
    pub fn from_stored(stored: &StoredFile) -> (r: Self)
        ensures
            uploadfileresponse_of(r, *stored),
    {
        UploadFileResponse {
            id: stored.file.id.clone(),
            url: stored.url.clone(),
        }
    }
}
#[derive(Debug, Clone)]
pub struct FileResponse {
    pub id: String,
    pub owner_user_id: Option<String>,
    pub bucket: String,
    pub object_key: String,
    pub content_type: String,
    pub byte_size: u64,
    pub original_name: String,
    pub checksum_sha256: Option<String>,
    pub created_at: String,
    pub url: String,
}
/// The fields of a `FileResponse` taken from a `StoredFile`.
pub open spec fn fileresponse_of(r: FileResponse, stored: StoredFile) -> bool {
    &&& r.id == stored.file.id
    &&& r.owner_user_id == stored.file.owner_user_id
    &&& r.bucket == stored.file.bucket
    &&& r.object_key == stored.file.object_key
    &&& r.content_type == stored.file.content_type
    &&& r.byte_size == stored.file.byte_size
    &&& r.original_name == stored.file.original_name
    &&& r.checksum_sha256 == stored.file.checksum_sha256
    &&& r.created_at == stored.file.created_at
    &&& r.url == stored.url
}

impl FileResponse {
    pub fn from_stored(stored: &StoredFile) -> (r: Self)
        ensures
            fileresponse_of(r, *stored),
    {
        FileResponse {
            id: stored.file.id.clone(),
            owner_user_id: clone_opt(&stored.file.owner_user_id),
            bucket: stored.file.bucket.clone(),
            object_key: stored.file.object_key.clone(),
            content_type: stored.file.content_type.clone(),
            byte_size: stored.file.byte_size,
            original_name: stored.file.original_name.clone(),
            checksum_sha256: clone_opt(&stored.file.checksum_sha256),
            created_at: stored.file.created_at.clone(),
            url: stored.url.clone(),
        }
    }
}
#[derive(Debug, Clone)]
pub struct LinkFileRequest {
    pub file_id: Option<String>,
}
impl From<LinkFileRequest> for LinkFile {
    fn from(value: LinkFileRequest) -> (r: Self) {
        LinkFile {
            file_id: value.file_id,
        }
    }
}

impl vstd::std_specs::convert::FromSpecImpl<LinkFileRequest> for LinkFile {
    open spec fn obeys_from_spec() -> bool {
        true
    }

    open spec fn from_spec(value: LinkFileRequest) -> Self {
        LinkFile {
            file_id: value.file_id,
        }
    }
}

} // verus!
