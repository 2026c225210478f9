//! How an error is answered over HTTP: its status and the body's code and message.
use vstd::prelude::*;

use crate::api::dto::common::ErrorResponse;
use crate::error::{message_of, AppError, CodedKind};

verus! {

pub const STATUS_UNAUTHORIZED: u16 = 401;

pub const STATUS_FORBIDDEN: u16 = 403;

pub const STATUS_NOT_FOUND: u16 = 404;

pub const STATUS_CONFLICT: u16 = 409;

pub const STATUS_UNPROCESSABLE_ENTITY: u16 = 422;

pub const STATUS_INTERNAL_SERVER_ERROR: u16 = 500;

pub const STATUS_SERVICE_UNAVAILABLE: u16 = 503;

/// The HTTP status that answers an error.
pub open spec fn error_status(e: AppError) -> u16 {
    match e {
        AppError::Configuration(_) => STATUS_SERVICE_UNAVAILABLE,
        AppError::Conflict(_) => STATUS_CONFLICT,
        AppError::Forbidden(_) => STATUS_FORBIDDEN,
        AppError::NotFound(_) => STATUS_NOT_FOUND,
        AppError::Unauthorized(_) => STATUS_UNAUTHORIZED,
        AppError::Validation(_) => STATUS_UNPROCESSABLE_ENTITY,
        AppError::Persistence(_) => STATUS_INTERNAL_SERVER_ERROR,
        AppError::Internal(_) => STATUS_INTERNAL_SERVER_ERROR,
        AppError::Coded { kind, .. } => match kind {
            CodedKind::Conflict => STATUS_CONFLICT,
            CodedKind::Forbidden => STATUS_FORBIDDEN,
            CodedKind::NotFound => STATUS_NOT_FOUND,
            CodedKind::Validation => STATUS_UNPROCESSABLE_ENTITY,
        },
    }
}

/// The machine code of the answer: the error's own code where it carries one.
pub open spec fn error_code(e: AppError) -> Seq<char> {
    match e {
        AppError::Configuration(_) => "configuration_error"@,
        AppError::Conflict(_) => "conflict"@,
        AppError::Forbidden(_) => "forbidden"@,
        AppError::NotFound(_) => "not_found"@,
        AppError::Unauthorized(_) => "unauthorized"@,
        AppError::Validation(_) => "validation_error"@,
        AppError::Persistence(_) => "internal_error"@,
        AppError::Internal(_) => "internal_error"@,
        AppError::Coded { code, .. } => code@,
    }
}

/// The status and body that answer an error; the body carries the client
/// message, without the kind's prefix.
pub fn app_error(error: &AppError) -> (r: (u16, ErrorResponse))
    ensures
        r.0 == error_status(*error),
        r.1.code@ == error_code(*error),
        r.1.message@ == message_of(*error),
{
    let (status, code) = match error {
        AppError::Configuration(_) => (STATUS_SERVICE_UNAVAILABLE, String::from_str("configuration_error")),
        AppError::Conflict(_) => (STATUS_CONFLICT, String::from_str("conflict")),
        AppError::Forbidden(_) => (STATUS_FORBIDDEN, String::from_str("forbidden")),
        AppError::NotFound(_) => (STATUS_NOT_FOUND, String::from_str("not_found")),
        AppError::Unauthorized(_) => (STATUS_UNAUTHORIZED, String::from_str("unauthorized")),
        AppError::Validation(_) => (STATUS_UNPROCESSABLE_ENTITY, String::from_str("validation_error")),
        AppError::Persistence(_) => (STATUS_INTERNAL_SERVER_ERROR, String::from_str("internal_error")),
        AppError::Internal(_) => (STATUS_INTERNAL_SERVER_ERROR, String::from_str("internal_error")),
        AppError::Coded { kind, code, .. } => {
            let status = match kind {
                CodedKind::Conflict => STATUS_CONFLICT,
                CodedKind::Forbidden => STATUS_FORBIDDEN,
                CodedKind::NotFound => STATUS_NOT_FOUND,
                CodedKind::Validation => STATUS_UNPROCESSABLE_ENTITY,
            };
            (status, code.clone())
        },
    };
    (status, ErrorResponse { code, message: error.client_message() })
}

} // verus!
