//! The HTTP face of domain errors: a status code, a stable machine code
//! and a message, optionally tagged with the request id. The HTTP layer
//! turns an [`ApiError`] into a JSON body `{"error": {...}}`.

use vstd::prelude::*;
use crate::errors::{domain_message, validation_message, DomainError, ValidationError};
use crate::clock::{hyphenated, id_text, new_id};
use crate::text::owned;

verus! {

/// 400 Bad Request.
pub const STATUS_BAD_REQUEST: u16 = 400;

/// 401 Unauthorized.
pub const STATUS_UNAUTHORIZED: u16 = 401;

/// 403 Forbidden.
pub const STATUS_FORBIDDEN: u16 = 403;

/// 404 Not Found.
pub const STATUS_NOT_FOUND: u16 = 404;

/// 409 Conflict.
pub const STATUS_CONFLICT: u16 = 409;

/// 500 Internal Server Error.
pub const STATUS_INTERNAL_SERVER_ERROR: u16 = 500;

/// A 5xx status.
pub open spec fn is_server_error(status: u16) -> bool {
    500 <= status <= 599
}

/// The details of an error body.
#[derive(Debug, Clone)]
pub struct ApiErrorDetails {
    pub code: &'static str,
    pub message: String,
    /// Left out of the JSON when absent.
    pub request_id: Option<String>,
}

/// The JSON body of an error response: `{"error": {...}}`.
#[derive(Debug, Clone)]
pub struct ApiErrorBody {
    pub error: ApiErrorDetails,
}

/// An error as the HTTP layer answers it.
#[derive(Debug, Clone)]
pub struct ApiError {
    pub status: u16,
    pub code: &'static str,
    pub message: String,
    pub request_id: Option<String>,
}

/// The code a validation error is answered with.
pub open spec fn validation_code(v: ValidationError) -> &'static str {
    match v {
        ValidationError::Login => "VALIDATION_LOGIN",
        ValidationError::Email => "VALIDATION_EMAIL",
        ValidationError::PasswordTooShort => "VALIDATION_PASSWORD_TOO_SHORT",
        ValidationError::PasswordTooLong => "VALIDATION_PASSWORD_TOO_LONG",
        ValidationError::PasswordNoDigit => "VALIDATION_PASSWORD_NO_DIGIT",
        ValidationError::PasswordNoUppercase => "VALIDATION_PASSWORD_NO_UPPERCASE",
        ValidationError::PasswordNoLowercase => "VALIDATION_PASSWORD_NO_LOWERCASE",
        ValidationError::PasswordNoSpecial => "VALIDATION_PASSWORD_NO_SPECIAL",
        ValidationError::Region(_) => "VALIDATION_REGION",
        ValidationError::Language(_) => "VALIDATION_LANGUAGE",
        ValidationError::Custom(_) => "VALIDATION_FAILED",
    }
}

/// The status a domain error is answered with.
pub open spec fn domain_status(e: DomainError) -> u16 {
    match e {
        DomainError::EmailAlreadyExists => STATUS_CONFLICT,
        DomainError::LoginAlreadyTaken => STATUS_CONFLICT,
        DomainError::Underage { .. } => STATUS_BAD_REQUEST,
        DomainError::UserNotFound => STATUS_NOT_FOUND,
        DomainError::NotVerified => STATUS_FORBIDDEN,
        DomainError::AlreadyVerified => STATUS_CONFLICT,
        DomainError::Blocked => STATUS_FORBIDDEN,
        DomainError::InvalidCredentials => STATUS_UNAUTHORIZED,
        DomainError::InvalidToken => STATUS_UNAUTHORIZED,
        DomainError::TokenExpired => STATUS_UNAUTHORIZED,
        DomainError::SessionRevoked => STATUS_UNAUTHORIZED,
        DomainError::InvalidVerificationToken => STATUS_BAD_REQUEST,
        DomainError::InvalidResetToken => STATUS_BAD_REQUEST,
        DomainError::Validation(_) => STATUS_BAD_REQUEST,
        DomainError::Infra(_) => STATUS_INTERNAL_SERVER_ERROR,
        DomainError::GunNotFound => STATUS_NOT_FOUND,
        DomainError::GunSerialAlreadyExists => STATUS_CONFLICT,
        DomainError::AmmoLotNotFound => STATUS_NOT_FOUND,
        DomainError::AmmoInsufficient { .. } => STATUS_CONFLICT,
        DomainError::LicenseNotFound => STATUS_NOT_FOUND,
        DomainError::LicenseExpired => STATUS_CONFLICT,
        DomainError::BallisticProfileNotFound => STATUS_NOT_FOUND,
        DomainError::BallisticInput(_) => STATUS_BAD_REQUEST,
        DomainError::ScopeProfileNotFound => STATUS_NOT_FOUND,
        DomainError::ScopeRangeExceeded => STATUS_BAD_REQUEST,
        DomainError::LawNotFound => STATUS_NOT_FOUND,
        DomainError::NotOwner => STATUS_FORBIDDEN,
    }
}

/// The code a domain error is answered with.
pub open spec fn domain_code(e: DomainError) -> &'static str {
    match e {
        DomainError::EmailAlreadyExists => "USER_EMAIL_ALREADY_EXISTS",
        DomainError::LoginAlreadyTaken => "USER_LOGIN_ALREADY_TAKEN",
        DomainError::Underage { .. } => "USER_UNDERAGE",
        DomainError::UserNotFound => "USER_NOT_FOUND",
        DomainError::NotVerified => "USER_NOT_VERIFIED",
        DomainError::AlreadyVerified => "USER_ALREADY_VERIFIED",
        DomainError::Blocked => "USER_BLOCKED",
        DomainError::InvalidCredentials => "AUTH_INVALID_CREDENTIALS",
        DomainError::InvalidToken => "AUTH_INVALID_TOKEN",
        DomainError::TokenExpired => "AUTH_TOKEN_EXPIRED",
        DomainError::SessionRevoked => "AUTH_SESSION_REVOKED",
        DomainError::InvalidVerificationToken => "AUTH_INVALID_VERIFICATION_TOKEN",
        DomainError::InvalidResetToken => "AUTH_INVALID_RESET_TOKEN",
        DomainError::Validation(v) => validation_code(v),
        DomainError::Infra(_) => "INTERNAL_ERROR",
        DomainError::GunNotFound => "GUN_NOT_FOUND",
        DomainError::GunSerialAlreadyExists => "GUN_SERIAL_DUPLICATE",
        DomainError::AmmoLotNotFound => "AMMO_LOT_NOT_FOUND",
        DomainError::AmmoInsufficient { .. } => "AMMO_INSUFFICIENT",
        DomainError::LicenseNotFound => "LICENSE_NOT_FOUND",
        DomainError::LicenseExpired => "LICENSE_EXPIRED",
        DomainError::BallisticProfileNotFound => "BALLISTIC_PROFILE_NOT_FOUND",
        DomainError::BallisticInput(_) => "BALLISTIC_INPUT_INVALID",
        DomainError::ScopeProfileNotFound => "SCOPE_PROFILE_NOT_FOUND",
        DomainError::ScopeRangeExceeded => "SCOPE_RANGE_EXCEEDED",
        DomainError::LawNotFound => "LAW_NOT_FOUND",
        DomainError::NotOwner => "NOT_OWNER",
    }
}

/// The message a domain error is answered with: the error's own text,
/// except that a server error only says "internal error".
pub open spec fn domain_answer_message(e: DomainError) -> Seq<char> {
    if is_server_error(domain_status(e)) {
        "internal error"@
    } else {
        domain_message(e)
    }
}

/// The status, code and message of `a` are those `e` is answered with,
/// and no request id is attached yet.
pub open spec fn answers(a: ApiError, e: DomainError) -> bool {
    &&& a.status == domain_status(e)
    &&& a.code == domain_code(e)
    &&& a.message@ == domain_answer_message(e)
    &&& a.request_id is None
}

/// The status and code of a domain error.
fn status_and_code(e: &DomainError) -> (r: (u16, &'static str))
    ensures
        r.0 == domain_status(*e),
        r.1 == domain_code(*e),
{
    match e {
        DomainError::EmailAlreadyExists => (STATUS_CONFLICT, "USER_EMAIL_ALREADY_EXISTS"),
        DomainError::LoginAlreadyTaken => (STATUS_CONFLICT, "USER_LOGIN_ALREADY_TAKEN"),
        DomainError::Underage { .. } => (STATUS_BAD_REQUEST, "USER_UNDERAGE"),
        DomainError::UserNotFound => (STATUS_NOT_FOUND, "USER_NOT_FOUND"),
        DomainError::NotVerified => (STATUS_FORBIDDEN, "USER_NOT_VERIFIED"),
        DomainError::AlreadyVerified => (STATUS_CONFLICT, "USER_ALREADY_VERIFIED"),
        DomainError::Blocked => (STATUS_FORBIDDEN, "USER_BLOCKED"),
        DomainError::InvalidCredentials => (STATUS_UNAUTHORIZED, "AUTH_INVALID_CREDENTIALS"),
        DomainError::InvalidToken => (STATUS_UNAUTHORIZED, "AUTH_INVALID_TOKEN"),
        DomainError::TokenExpired => (STATUS_UNAUTHORIZED, "AUTH_TOKEN_EXPIRED"),
        DomainError::SessionRevoked => (STATUS_UNAUTHORIZED, "AUTH_SESSION_REVOKED"),
        DomainError::InvalidVerificationToken => (
            STATUS_BAD_REQUEST,
            "AUTH_INVALID_VERIFICATION_TOKEN",
        ),
        DomainError::InvalidResetToken => (STATUS_BAD_REQUEST, "AUTH_INVALID_RESET_TOKEN"),
        DomainError::Validation(v) => (STATUS_BAD_REQUEST, validation_code_of(v)),
        DomainError::Infra(_) => (STATUS_INTERNAL_SERVER_ERROR, "INTERNAL_ERROR"),
        DomainError::GunNotFound => (STATUS_NOT_FOUND, "GUN_NOT_FOUND"),
        DomainError::GunSerialAlreadyExists => (STATUS_CONFLICT, "GUN_SERIAL_DUPLICATE"),
        DomainError::AmmoLotNotFound => (STATUS_NOT_FOUND, "AMMO_LOT_NOT_FOUND"),
        DomainError::AmmoInsufficient { .. } => (STATUS_CONFLICT, "AMMO_INSUFFICIENT"),
        DomainError::LicenseNotFound => (STATUS_NOT_FOUND, "LICENSE_NOT_FOUND"),
        DomainError::LicenseExpired => (STATUS_CONFLICT, "LICENSE_EXPIRED"),
        DomainError::BallisticProfileNotFound => (
            STATUS_NOT_FOUND,
            "BALLISTIC_PROFILE_NOT_FOUND",
        ),
        DomainError::BallisticInput(_) => (STATUS_BAD_REQUEST, "BALLISTIC_INPUT_INVALID"),
        DomainError::ScopeProfileNotFound => (STATUS_NOT_FOUND, "SCOPE_PROFILE_NOT_FOUND"),
        DomainError::ScopeRangeExceeded => (STATUS_BAD_REQUEST, "SCOPE_RANGE_EXCEEDED"),
        DomainError::LawNotFound => (STATUS_NOT_FOUND, "LAW_NOT_FOUND"),
        DomainError::NotOwner => (STATUS_FORBIDDEN, "NOT_OWNER"),
    }
}

/// The code of a validation error.
fn validation_code_of(v: &ValidationError) -> (r: &'static str)
    ensures
        r == validation_code(*v),
{
    match v {
        ValidationError::Login => "VALIDATION_LOGIN",
        ValidationError::Email => "VALIDATION_EMAIL",
        ValidationError::PasswordTooShort => "VALIDATION_PASSWORD_TOO_SHORT",
        ValidationError::PasswordTooLong => "VALIDATION_PASSWORD_TOO_LONG",
        ValidationError::PasswordNoDigit => "VALIDATION_PASSWORD_NO_DIGIT",
        ValidationError::PasswordNoUppercase => "VALIDATION_PASSWORD_NO_UPPERCASE",
        ValidationError::PasswordNoLowercase => "VALIDATION_PASSWORD_NO_LOWERCASE",
        ValidationError::PasswordNoSpecial => "VALIDATION_PASSWORD_NO_SPECIAL",
        ValidationError::Region(_) => "VALIDATION_REGION",
        ValidationError::Language(_) => "VALIDATION_LANGUAGE",
        ValidationError::Custom(_) => "VALIDATION_FAILED",
    }
}

/// A validation failure answered as 400 with its own code and text.
pub fn validation_to_api_error(v: &ValidationError) -> (r: ApiError)
    ensures
        r.status == STATUS_BAD_REQUEST,
        r.code == validation_code(*v),
        r.message@ == validation_message(*v),
        r.request_id is None,
{
    ApiError {
        status: STATUS_BAD_REQUEST,
        code: validation_code_of(v),
        message: v.message(),
        request_id: None,
    }
}

impl ApiError {
    /// An error with the given status, code and message.
    pub fn new(status: u16, code: &'static str, message: String) -> (r: ApiError)
        ensures
            r.status == status,
            r.code == code,
            r.message == message,
            r.request_id is None,
    {
        ApiError { status, code, message, request_id: None }
    }

    /// The same error tagged with `rid`.
    pub fn with_request_id(self, rid: Option<String>) -> (r: ApiError)
        ensures
            r.status == self.status,
            r.code == self.code,
            r.message == self.message,
            r.request_id == rid,
    {
        let mut me = self;
        me.request_id = rid;
        me
    }

    /// A 500 with code `INTERNAL_ERROR`.
    pub fn internal(message: String) -> (r: ApiError)
        ensures
            r.status == STATUS_INTERNAL_SERVER_ERROR,
            r.code == "INTERNAL_ERROR",
            r.message == message,
            r.request_id is None,
    {
        ApiError::new(STATUS_INTERNAL_SERVER_ERROR, "INTERNAL_ERROR", message)
    }

    /// A 401 with the given code.
    pub fn unauthorized(code: &'static str, message: String) -> (r: ApiError)
        ensures
            r.status == STATUS_UNAUTHORIZED,
            r.code == code,
            r.message == message,
            r.request_id is None,
    {
        ApiError::new(STATUS_UNAUTHORIZED, code, message)
    }

    /// The answer to a domain error. A server error never carries the
    /// underlying detail: its message is "internal error".
    pub fn from_domain(e: DomainError) -> (r: ApiError)
        ensures
            answers(r, e),
    {
        if let DomainError::Validation(v) = &e {
            return validation_to_api_error(v);
        }
        let (status, code) = status_and_code(&e);
        let message = if status >= 500 && status <= 599 {
            owned("internal error")
        } else {
            e.message()
        };
        ApiError { status, code, message, request_id: None }
    }

    /// The answer to a validation failure.
    pub fn from_validation(v: ValidationError) -> (r: ApiError)
        ensures
            answers(r, DomainError::Validation(v)),
    {
        validation_to_api_error(&v)
    }

    /// The status and JSON body this error is answered with.
    pub fn into_parts(self) -> (r: (u16, ApiErrorBody))
        ensures
            r.0 == self.status,
            r.1.error.code == self.code,
            r.1.error.message == self.message,
            r.1.error.request_id == self.request_id,
    {
        (
            self.status,
            ApiErrorBody {
                error: ApiErrorDetails {
                    code: self.code,
                    message: self.message,
                    request_id: self.request_id,
                },
            },
        )
    }
}

/// The id of a request, echoed in error bodies and in the
/// `x-request-id` response header.
#[derive(Debug, Clone)]
pub struct RequestId(pub String);

impl RequestId {
    /// The id a request goes by: the one its `x-request-id` header
    /// carries, else a fresh identifier in canonical text.
    pub fn from_header(header: Option<&str>) -> (r: RequestId)
        ensures
            header matches Some(h) ==> r.0@ == h@,
            header is None ==> exists|id: u128| r.0@ == hyphenated(id),
    {
        match header {
            Some(h) => RequestId(owned(h)),
            None => RequestId(id_text(new_id())),
        }
    }
}

/// Only infrastructure failures are answered with a server error, and
/// their answer never repeats the failure's own text.
pub proof fn lemma_server_errors_are_opaque(e: DomainError)
    ensures
        is_server_error(domain_status(e)) <==> e is Infra,
        e is Infra ==> domain_answer_message(e) == "internal error"@,
        !(e is Infra) ==> domain_answer_message(e) == domain_message(e),
{
}

/// Every validation failure is answered as a 400 with the failure's own
/// text.
pub proof fn lemma_validation_is_bad_request(v: ValidationError)
    ensures
        domain_status(DomainError::Validation(v)) == STATUS_BAD_REQUEST,
        domain_code(DomainError::Validation(v)) == validation_code(v),
        domain_answer_message(DomainError::Validation(v)) == validation_message(v),
{
}

} // verus!
