use vstd::prelude::*;

verus! {

/// The family of a client-facing error that carries its own machine code.
#[derive(Debug, Clone, Copy, PartialEq, Eq, Structural)]
pub enum CodedKind {
    Conflict,
    Forbidden,
    NotFound,
    Validation,
}

/// Every error a use case can report.
#[derive(Debug, Clone)]
pub enum AppError {
    Configuration(String),
    Conflict(String),
    Forbidden(String),
    NotFound(String),
    Unauthorized(String),
    Validation(String),
    Persistence(String),
    Internal(String),
    Coded { kind: CodedKind, code: String, message: String },
}

pub open spec fn is_coded(e: AppError, kind: CodedKind, code: Seq<char>, message: Seq<char>) -> bool {
    e matches AppError::Coded { kind: k, code: c, message: m } && k == kind && c@ == code
        && m@ == message
}

pub open spec fn is_validation(e: AppError, message: Seq<char>) -> bool {
    e matches AppError::Validation(m) && m@ == message
}

pub open spec fn is_not_found(e: AppError, message: Seq<char>) -> bool {
    e matches AppError::NotFound(m) && m@ == message
}

pub open spec fn is_forbidden(e: AppError, message: Seq<char>) -> bool {
    e matches AppError::Forbidden(m) && m@ == message
}

pub open spec fn is_unauthorized(e: AppError, message: Seq<char>) -> bool {
    e matches AppError::Unauthorized(m) && m@ == message
}

pub open spec fn is_conflict(e: AppError, message: Seq<char>) -> bool {
    e matches AppError::Conflict(m) && m@ == message
}

pub open spec fn is_internal(e: AppError, message: Seq<char>) -> bool {
    e matches AppError::Internal(m) && m@ == message
}

/// The message an error carries, without any prefix naming its kind.
pub open spec fn message_of(e: AppError) -> Seq<char> {
    match e {
        AppError::Configuration(m) => m@,
        AppError::Conflict(m) => m@,
        AppError::Forbidden(m) => m@,
        AppError::NotFound(m) => m@,
        AppError::Unauthorized(m) => m@,
        AppError::Validation(m) => m@,
        AppError::Persistence(m) => m@,
        AppError::Internal(m) => m@,
        AppError::Coded { message, .. } => message@,
    }
}

impl AppError {
    /// The message shown to clients.
    pub fn client_message(&self) -> (r: String)
        ensures
            r@ == message_of(*self),
    {
        match self {
            AppError::Configuration(m) => m.clone(),
            AppError::Conflict(m) => m.clone(),
            AppError::Forbidden(m) => m.clone(),
            AppError::NotFound(m) => m.clone(),
            AppError::Unauthorized(m) => m.clone(),
            AppError::Validation(m) => m.clone(),
            AppError::Persistence(m) => m.clone(),
            AppError::Internal(m) => m.clone(),
            AppError::Coded { message, .. } => message.clone(),
        }
    }

    pub fn validation(message: &str) -> (e: AppError)
        ensures
            is_validation(e, message@),
    {
        AppError::Validation(String::from_str(message))
    }

    pub fn not_found(message: &str) -> (e: AppError)
        ensures
            is_not_found(e, message@),
    {
        AppError::NotFound(String::from_str(message))
    }

    pub fn forbidden(message: &str) -> (e: AppError)
        ensures
            is_forbidden(e, message@),
    {
        AppError::Forbidden(String::from_str(message))
    }

    pub fn unauthorized(message: &str) -> (e: AppError)
        ensures
            is_unauthorized(e, message@),
    {
        AppError::Unauthorized(String::from_str(message))
    }

    pub fn conflict(message: &str) -> (e: AppError)
        ensures
            is_conflict(e, message@),
    {
        AppError::Conflict(String::from_str(message))
    }

    pub fn internal(message: &str) -> (e: AppError)
        ensures
            is_internal(e, message@),
    {
        AppError::Internal(String::from_str(message))
    }

    pub fn conflict_code(code: &str, message: &str) -> (e: AppError)
        ensures
            is_coded(e, CodedKind::Conflict, code@, message@),
    {
        AppError::Coded {
            kind: CodedKind::Conflict,
            code: String::from_str(code),
            message: String::from_str(message),
        }
    }

    pub fn forbidden_code(code: &str, message: &str) -> (e: AppError)
        ensures
            is_coded(e, CodedKind::Forbidden, code@, message@),
    {
        AppError::Coded {
            kind: CodedKind::Forbidden,
            code: String::from_str(code),
            message: String::from_str(message),
        }
    }

    pub fn not_found_code(code: &str, message: &str) -> (e: AppError)
        ensures
            is_coded(e, CodedKind::NotFound, code@, message@),
    {
        AppError::Coded {
            kind: CodedKind::NotFound,
            code: String::from_str(code),
            message: String::from_str(message),
        }
    }

    pub fn validation_code(code: &str, message: &str) -> (e: AppError)
        ensures
            is_coded(e, CodedKind::Validation, code@, message@),
    {
        AppError::Coded {
            kind: CodedKind::Validation,
            code: String::from_str(code),
            message: String::from_str(message),
        }
    }
}

} // verus!
