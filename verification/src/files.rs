//! Uploaded images and what they are linked to.

use vstd::prelude::*;

use crate::domain::entities::File;
use crate::domain::values::{must_not_be_empty, NonEmptyString};
use crate::error::{is_coded, is_not_found, is_validation, AppError, CodedKind};
use crate::text::{str_eq, trimmed};
use sha2::Digest;

verus! {

#[derive(Debug, Clone)]
pub struct UploadFile {
    pub owner_user_id: Option<String>,
    pub content_type: String,
    pub original_name: String,
    pub bytes: Vec<u8>,
}

#[derive(Debug, Clone)]
pub struct StoredFile {
    pub file: File,
    pub url: String,
}

#[derive(Debug, Clone)]
pub struct LinkFile {
    pub file_id: Option<String>,
}

#[derive(Debug, Clone)]
pub struct CreateFileRecord {
    pub file_id: String,
    pub owner_user_id: Option<String>,
    pub bucket: String,
    pub object_key: String,
    pub content_type: String,
    pub byte_size: u64,
    pub original_name: String,
    pub checksum_sha256: Option<String>,
}

/// Entry point of uploads; holds the file repository, the storage and the
/// size limit.
pub struct FileUseCases<R, S> {
    pub files: R,
    pub storage: S,
    pub max_byte_size: u64,
}

impl<R, S> FileUseCases<R, S> {
    pub fn new(files: R, storage: S, max_byte_size: u64) -> (r: Self)
        ensures
            r.files == files,
            r.storage == storage,
            r.max_byte_size == max_byte_size,
    {
        FileUseCases { files, storage, max_byte_size }
    }
}

/// Entry point of linking files to users and teams.
pub struct LinkUseCases<F, L> {
    pub files: F,
    pub links: L,
}

impl<F, L> LinkUseCases<F, L> {
    pub fn new(files: F, links: L) -> (r: Self)
        ensures
            r.files == files,
            r.links == links,
    {
        LinkUseCases { files, links }
    }
}

/// The image types that may be uploaded.
pub open spec fn allowed_content_type(t: Seq<char>) -> bool {
    ||| t == "image/png"@
    ||| t == "image/jpeg"@
    ||| t == "image/webp"@
    ||| t == "image/gif"@
    ||| t == "image/svg+xml"@
}

pub fn is_allowed_content_type(t: &str) -> (r: bool)
    ensures
        r == allowed_content_type(t@),
{
    str_eq(t, "image/png") || str_eq(t, "image/jpeg") || str_eq(t, "image/webp") || str_eq(
        t,
        "image/gif",
    ) || str_eq(t, "image/svg+xml")
}

pub const MAX_ORIGINAL_NAME_LEN: usize = 255;

/// The SHA-256 digest `sha2::Sha256::digest` computes of some bytes.
pub uninterp spec fn sha256_of(bytes: Seq<u8>) -> Seq<u8>;

/// `sha2::Sha256::digest`: the 32-byte SHA-256 digest of the bytes.
#[verifier::external_body]
fn sha256(bytes: &[u8]) -> (r: Vec<u8>)
    ensures
        r@ == sha256_of(bytes@),
        r@.len() == 32,
{
    sha2::Sha256::digest(bytes).to_vec()
}

pub open spec fn hex_digit(v: int) -> char {
    if v < 10 {
        ((v + 48) as char)
    } else {
        ((v + 87) as char)
    }
}

/// Lowercase hexadecimal text of bytes, two digits per byte.
pub open spec fn hex_of(bytes: Seq<u8>) -> Seq<char>
    decreases bytes.len(),
{
    if bytes.len() == 0 {
        Seq::empty()
    } else {
        hex_of(bytes.drop_last()) + seq![
            hex_digit(bytes.last() as int / 16),
            hex_digit(bytes.last() as int % 16),
        ]
    }
}

fn hex_char(v: u8) -> (r: &'static str)
    requires
        v < 16,
    ensures
        r@ == seq![hex_digit(v as int)],
{
    proof {
        reveal_strlit("0");
        reveal_strlit("1");
        reveal_strlit("2");
        reveal_strlit("3");
        reveal_strlit("4");
        reveal_strlit("5");
        reveal_strlit("6");
        reveal_strlit("7");
        reveal_strlit("8");
        reveal_strlit("9");
        reveal_strlit("a");
        reveal_strlit("b");
        reveal_strlit("c");
        reveal_strlit("d");
        reveal_strlit("e");
        reveal_strlit("f");
    }
    let r = match v {
        0 => "0",
        1 => "1",
        2 => "2",
        3 => "3",
        4 => "4",
        5 => "5",
        6 => "6",
        7 => "7",
        8 => "8",
        9 => "9",
        10 => "a",
        11 => "b",
        12 => "c",
        13 => "d",
        14 => "e",
        _ => "f",
    };
    assert(r@ =~= seq![hex_digit(v as int)]);
    r
}

/// Lowercase hexadecimal SHA-256 of the bytes.
pub fn hex_sha256(bytes: &[u8]) -> (r: String)
    ensures
        r@ == hex_of(sha256_of(bytes@)),
        r@.len() == 64,
{
    let digest = sha256(bytes);
    let mut hex = String::new();
    let mut i: usize = 0;
    while i < digest.len()
        invariant
            i <= digest.len(),
            digest@.len() == 32,
            hex@ == hex_of(digest@.take(i as int)),
            hex@.len() == 2 * i,
        decreases digest.len() - i,
    {
        assert(digest@.take(i + 1).drop_last() =~= digest@.take(i as int));
        let b = digest[i];
        hex.append(hex_char(b / 16));
        hex.append(hex_char(b % 16));
        i = i + 1;
    }
    assert(digest@.take(32) =~= digest@);
    hex
}

/// An upload's checked content type and name.
pub open spec fn upload_ok(content_type: Seq<char>, original_name: Seq<char>, byte_size: int, max: int) -> bool {
    &&& trimmed(content_type).len() > 0
    &&& allowed_content_type(trimmed(content_type))
    &&& trimmed(original_name).len() > 0
    &&& trimmed(original_name).len() <= 255
    &&& byte_size > 0
    &&& byte_size <= max
}

/// Checks an upload (content type, name, size, in that order) and builds
/// the record stored for it, with its SHA-256 checksum; the object key is
/// the file id.
pub fn prepare_upload(file_id: String, command: &UploadFile, bucket: String, max_byte_size: u64) -> (r: Result<CreateFileRecord, AppError>)
    ensures
        r is Ok <==> upload_ok(
            command.content_type@,
            command.original_name@,
            command.bytes.len() as int,
            max_byte_size as int,
        ),
        r matches Ok(rec) ==> {
            &&& rec.file_id == file_id
            &&& rec.object_key == file_id
            &&& rec.owner_user_id == command.owner_user_id
            &&& rec.bucket == bucket
            &&& rec.content_type@ == trimmed(command.content_type@)
            &&& rec.original_name@ == trimmed(command.original_name@)
            &&& rec.byte_size == command.bytes.len()
            &&& rec.checksum_sha256 matches Some(c) && c@ == hex_of(sha256_of(command.bytes@))
        },
        trimmed(command.content_type@).len() == 0 ==> (r matches Err(e) && is_validation(
            e,
            must_not_be_empty("file.content_type"@),
        )),
        trimmed(command.content_type@).len() > 0 && !allowed_content_type(
            trimmed(command.content_type@),
        ) ==> (r matches Err(e) && is_coded(
            e,
            CodedKind::Validation,
            "unsupported_content_type"@,
            "file content type is not an allowed image type"@,
        )),
        trimmed(command.content_type@).len() > 0 && allowed_content_type(
            trimmed(command.content_type@),
        ) ==> {
            let name = trimmed(command.original_name@);
            let size = command.bytes.len();
            if name.len() == 0 {
                (r matches Err(e) && is_validation(e, must_not_be_empty("file.original_name"@)))
            } else if name.len() > 255 {
                (r matches Err(e) && is_coded(
                    e,
                    CodedKind::Validation,
                    "original_name_too_long"@,
                    "file name must be at most 255 characters"@,
                ))
            } else if size == 0 {
                (r matches Err(e) && is_coded(
                    e,
                    CodedKind::Validation,
                    "empty_file"@,
                    "uploaded file is empty"@,
                ))
            } else if size > max_byte_size {
                (r matches Err(e) && is_coded(
                    e,
                    CodedKind::Validation,
                    "file_too_large"@,
                    "uploaded file exceeds the maximum allowed size"@,
                ))
            } else {
                r is Ok
            }
        },
{
    let content_type = match NonEmptyString::new(command.content_type.clone(), "file.content_type") {
        Ok(n) => n.value,
        Err(e) => return Err(e),
    };
    if !is_allowed_content_type(content_type.as_str()) {
        return Err(
            AppError::validation_code(
                "unsupported_content_type",
                "file content type is not an allowed image type",
            ),
        );
    }
    let original_name = match NonEmptyString::new(command.original_name.clone(), "file.original_name") {
        Ok(n) => n.value,
        Err(e) => return Err(e),
    };
    if original_name.as_str().unicode_len() > MAX_ORIGINAL_NAME_LEN {
        return Err(
            AppError::validation_code(
                "original_name_too_long",
                "file name must be at most 255 characters",
            ),
        );
    }
    let byte_size = command.bytes.len() as u64;
    if byte_size == 0 {
        return Err(AppError::validation_code("empty_file", "uploaded file is empty"));
    }
    if byte_size > max_byte_size {
        return Err(
            AppError::validation_code(
                "file_too_large",
                "uploaded file exceeds the maximum allowed size",
            ),
        );
    }
    let checksum = hex_sha256(command.bytes.as_slice());
    Ok(
        CreateFileRecord {
            file_id: file_id.clone(),
            owner_user_id: command.owner_user_id.clone(),
            bucket,
            object_key: file_id,
            content_type,
            byte_size,
            original_name,
            checksum_sha256: Some(checksum),
        },
    )
}

/// A file looked up by id.
pub fn found_file(found: Option<File>) -> (r: Result<File, AppError>)
    ensures
        found is Some ==> r == Ok::<File, AppError>(found->0),
        found is None ==> (r matches Err(e) && is_coded(
            e,
            CodedKind::NotFound,
            "file_not_found"@,
            "file was not found"@,
        )),
{
    match found {
        Some(f) => Ok(f),
        None => Err(AppError::not_found_code("file_not_found", "file was not found")),
    }
}

/// A file named by a link must exist; linking nothing always may proceed.
pub fn check_link_file(file_id: Option<&str>, file_found: bool) -> (r: Result<(), AppError>)
    ensures
        file_id is Some && !file_found ==> (r matches Err(e) && is_coded(
            e,
            CodedKind::NotFound,
            "file_not_found"@,
            "file was not found"@,
        )),
        !(file_id is Some && !file_found) ==> r is Ok,
{
    if file_id.is_some() && !file_found {
        return Err(AppError::not_found_code("file_not_found", "file was not found"));
    }
    Ok(())
}

/// The user or team a file is linked to must exist.
pub fn check_link_target(target_found: bool, message: &str) -> (r: Result<(), AppError>)
    ensures
        target_found ==> r is Ok,
        !target_found ==> (r matches Err(e) && is_not_found(e, message@)),
{
    if !target_found {
        return Err(AppError::not_found(message));
    }
    Ok(())
}


/// A part of a multipart upload that carries a file: its original name and
/// content type, the latter `application/octet-stream` where the part names
/// none. A part without a file name is not a file and is skipped.
pub fn file_part(file_name: Option<&str>, content_type: Option<&str>) -> (r: Option<(String, String)>)
    ensures
        r is Some <==> file_name is Some,
        r matches Some((name, kind)) ==> name@ == file_name->0@ && kind@ == match content_type {
            Some(c) => c@,
            None => "application/octet-stream"@,
        },
{
    match file_name {
        None => None,
        Some(n) => {
            let kind = match content_type {
                Some(c) => String::from_str(c),
                None => String::from_str("application/octet-stream"),
            };
            Some((String::from_str(n), kind))
        },
    }
}

/// The refusal of a multipart upload that holds no file part.
pub fn missing_file() -> (e: AppError)
    ensures
        is_coded(
            e,
            CodedKind::Validation,
            "missing_file"@,
            "no file part was provided in the multipart request"@,
        ),
{
    AppError::validation_code("missing_file", "no file part was provided in the multipart request")
}

} // verus!
