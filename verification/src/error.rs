use vstd::prelude::*;

verus! {

/// The class of a rejected request; it decides the HTTP status family.
#[derive(Debug, Clone, Copy, PartialEq, Eq, Structural)]
pub enum ErrorKind {
    Validation,
    NotFound,
    Conflict,
    Forbidden,
    Unauthorized,
    TooManyRequests,
    ServiceUnavailable,
    Internal,
}

/// A rejected request: its class, a stable machine-readable code, the request
/// field it concerns (empty when none) and a human-readable message.
#[derive(Debug, Clone, Copy, PartialEq, Eq)]
pub struct AppError {
    pub kind: ErrorKind,
    pub code: &'static str,
    pub field: &'static str,
    pub message: &'static str,
}

/// The error of a request field that fails validation.
pub open spec fn validation_error(field: &'static str, message: &'static str) -> AppError {
    AppError { kind: ErrorKind::Validation, code: "VALIDATION_FAILED", field, message }
}

/// An error of the given class that carries its own code.
pub open spec fn coded_error(kind: ErrorKind, code: &'static str, message: &'static str) -> AppError {
    AppError { kind, code, field: "", message }
}

impl AppError {
    pub fn validation(field: &'static str, message: &'static str) -> (e: AppError)
        ensures
            e == validation_error(field, message),
    {
        AppError { kind: ErrorKind::Validation, code: "VALIDATION_FAILED", field, message }
    }

    pub fn not_found(code: &'static str, message: &'static str) -> (e: AppError)
        ensures
            e == coded_error(ErrorKind::NotFound, code, message),
    {
        AppError { kind: ErrorKind::NotFound, code, field: "", message }
    }

    pub fn conflict(code: &'static str, message: &'static str) -> (e: AppError)
        ensures
            e == coded_error(ErrorKind::Conflict, code, message),
    {
        AppError { kind: ErrorKind::Conflict, code, field: "", message }
    }

    pub fn forbidden(code: &'static str, message: &'static str) -> (e: AppError)
        ensures
            e == coded_error(ErrorKind::Forbidden, code, message),
    {
        AppError { kind: ErrorKind::Forbidden, code, field: "", message }
    }

    pub fn unauthorized(code: &'static str, message: &'static str) -> (e: AppError)
        ensures
            e == coded_error(ErrorKind::Unauthorized, code, message),
    {
        AppError { kind: ErrorKind::Unauthorized, code, field: "", message }
    }

    pub fn too_many_requests(code: &'static str, message: &'static str) -> (e: AppError)
        ensures
            e == coded_error(ErrorKind::TooManyRequests, code, message),
    {
        AppError { kind: ErrorKind::TooManyRequests, code, field: "", message }
    }

    pub fn service_unavailable(code: &'static str, message: &'static str) -> (e: AppError)
        ensures
            e == coded_error(ErrorKind::ServiceUnavailable, code, message),
    {
        AppError { kind: ErrorKind::ServiceUnavailable, code, field: "", message }
    }

    /// An internal failure; `context` names the operation that failed.
    pub fn internal(context: &'static str) -> (e: AppError)
        ensures
            e == coded_error(ErrorKind::Internal, "INTERNAL_ERROR", context),
    {
        AppError { kind: ErrorKind::Internal, code: "INTERNAL_ERROR", field: "", message: context }
    }

    pub fn code(&self) -> (c: &'static str)
        ensures
            c == self.code,
    {
        self.code
    }
}

} // verus!
