//! Domain-layer error types. They know nothing of HTTP status codes or
//! SQL; the HTTP layer maps them to responses (see `api_error`).

use vstd::prelude::*;
use crate::text::{concat3, decimal, i64_to_decimal, owned};

verus! {

/// A rejected input.
#[derive(Debug, Clone, PartialEq, Eq)]
pub enum ValidationError {
    Login,
    Email,
    PasswordTooShort,
    PasswordTooLong,
    PasswordNoDigit,
    PasswordNoUppercase,
    PasswordNoLowercase,
    PasswordNoSpecial,
    Region(String),
    Language(String),
    Custom(String),
}

/// A failed domain operation.
#[derive(Debug, Clone, PartialEq, Eq)]
pub enum DomainError {
    // user-domain
    EmailAlreadyExists,
    LoginAlreadyTaken,
    Underage { required: i32, actual: i32 },
    UserNotFound,
    NotVerified,
    AlreadyVerified,
    Blocked,
    // armory
    GunNotFound,
    GunSerialAlreadyExists,
    AmmoLotNotFound,
    AmmoInsufficient { have: i64, need: i64 },
    // license
    LicenseNotFound,
    LicenseExpired,
    // ballistics
    BallisticProfileNotFound,
    BallisticInput(String),
    // scope
    ScopeProfileNotFound,
    ScopeRangeExceeded,
    // law
    LawNotFound,
    // generic ownership
    NotOwner,
    // auth
    InvalidCredentials,
    InvalidToken,
    TokenExpired,
    SessionRevoked,
    InvalidVerificationToken,
    InvalidResetToken,
    // validation
    Validation(ValidationError),
    // catch-all: an infrastructure failure, described by its message
    Infra(String),
}

/// `e` is a validation failure with the free-form message `m`.
pub open spec fn is_custom(e: DomainError, m: Seq<char>) -> bool {
    e matches DomainError::Validation(ValidationError::Custom(s)) && s@ == m
}

/// `v` is a free-form validation failure with the message `m`.
pub open spec fn is_custom_validation(v: ValidationError, m: Seq<char>) -> bool {
    v matches ValidationError::Custom(s) && s@ == m
}

/// `r` failed with a free-form validation message `m`.
pub open spec fn fails_v<T>(r: Result<T, ValidationError>, m: Seq<char>) -> bool {
    r matches Err(e) && is_custom_validation(e, m)
}

/// `r` failed validation with the free-form message `m`.
pub open spec fn fails<T>(r: Result<T, DomainError>, m: Seq<char>) -> bool {
    r matches Err(e) && is_custom(e, m)
}

/// `Result` of a domain operation.
pub type DomainResult<T> = Result<T, DomainError>;

/// The text a validation error displays.
pub open spec fn validation_message(v: ValidationError) -> Seq<char> {
    match v {
        ValidationError::Login => "login must be 3..=64 chars, ASCII letters/digits/underscore only"@,
        ValidationError::Email => "email is not a valid address"@,
        ValidationError::PasswordTooShort => "password is too short (min 8 chars)"@,
        ValidationError::PasswordTooLong => "password is too long (max 128 chars)"@,
        ValidationError::PasswordNoDigit => "password must contain at least one digit"@,
        ValidationError::PasswordNoUppercase => "password must contain at least one uppercase letter"@,
        ValidationError::PasswordNoLowercase => "password must contain at least one lowercase letter"@,
        ValidationError::PasswordNoSpecial => "password must contain at least one special character"@,
        ValidationError::Region(r) => "invalid region code `"@ + r@
            + "` \u{2014} expected ISO 3166-1 alpha-2"@,
        ValidationError::Language(l) => "unsupported language `"@ + l@ + "`"@,
        ValidationError::Custom(m) => "validation failed: "@ + m@,
    }
}

/// The text a domain error displays.
pub open spec fn domain_message(e: DomainError) -> Seq<char> {
    match e {
        DomainError::EmailAlreadyExists => "user with this email already exists"@,
        DomainError::LoginAlreadyTaken => "user with this login already exists"@,
        DomainError::Underage { required, actual } => "user is underage (required "@ + decimal(
            required as int,
        ) + ", got "@ + decimal(actual as int) + ")"@,
        DomainError::UserNotFound => "user not found"@,
        DomainError::NotVerified => "user is not verified"@,
        DomainError::AlreadyVerified => "user already verified"@,
        DomainError::Blocked => "user is blocked"@,
        DomainError::GunNotFound => "gun not found"@,
        DomainError::GunSerialAlreadyExists => "gun with this serial already exists"@,
        DomainError::AmmoLotNotFound => "ammo lot not found"@,
        DomainError::AmmoInsufficient { have, need } => "not enough ammo on hand (have "@ + decimal(
            have as int,
        ) + ", need "@ + decimal(need as int) + ")"@,
        DomainError::LicenseNotFound => "license not found"@,
        DomainError::LicenseExpired => "license already expired"@,
        DomainError::BallisticProfileNotFound => "ballistic profile not found"@,
        DomainError::BallisticInput(m) => "invalid ballistic input: "@ + m@,
        DomainError::ScopeProfileNotFound => "scope profile not found"@,
        DomainError::ScopeRangeExceeded => "requested adjustment exceeds scope range"@,
        DomainError::LawNotFound => "law not found"@,
        DomainError::NotOwner => "forbidden: resource not owned by current user"@,
        DomainError::InvalidCredentials => "invalid credentials"@,
        DomainError::InvalidToken => "token is invalid or malformed"@,
        DomainError::TokenExpired => "token expired"@,
        DomainError::SessionRevoked => "session not found or revoked"@,
        DomainError::InvalidVerificationToken => "verification token invalid or expired"@,
        DomainError::InvalidResetToken => "password reset token invalid or expired"@,
        DomainError::Validation(v) => validation_message(v),
        DomainError::Infra(m) => "infrastructure error: "@ + m@,
    }
}

impl ValidationError {
    /// The text this error displays.
    pub fn message(&self) -> (r: String)
        ensures
            r@ == validation_message(*self),
    {
        match self {
            ValidationError::Login => owned(
                "login must be 3..=64 chars, ASCII letters/digits/underscore only",
            ),
            ValidationError::Email => owned("email is not a valid address"),
            ValidationError::PasswordTooShort => owned("password is too short (min 8 chars)"),
            ValidationError::PasswordTooLong => owned("password is too long (max 128 chars)"),
            ValidationError::PasswordNoDigit => owned("password must contain at least one digit"),
            ValidationError::PasswordNoUppercase => owned(
                "password must contain at least one uppercase letter",
            ),
            ValidationError::PasswordNoLowercase => owned(
                "password must contain at least one lowercase letter",
            ),
            ValidationError::PasswordNoSpecial => owned(
                "password must contain at least one special character",
            ),
            ValidationError::Region(r) => concat3(
                "invalid region code `",
                r.as_str(),
                "` \u{2014} expected ISO 3166-1 alpha-2",
            ),
            ValidationError::Language(l) => concat3("unsupported language `", l.as_str(), "`"),
            ValidationError::Custom(m) => {
                let mut s = owned("validation failed: ");
                s.append(m.as_str());
                s
            },
        }
    }
}

fn two_numbers(a: &str, x: i64, b: &str, y: i64, c: &str) -> (r: String)
    ensures
        r@ == a@ + decimal(x as int) + b@ + decimal(y as int) + c@,
{
    let mut s = owned(a);
    let xs = i64_to_decimal(x);
    s.append(xs.as_str());
    s.append(b);
    let ys = i64_to_decimal(y);
    s.append(ys.as_str());
    s.append(c);
    s
}

impl DomainError {
    /// The text this error displays.
    pub fn message(&self) -> (r: String)
        ensures
            r@ == domain_message(*self),
    {
        match self {
            DomainError::EmailAlreadyExists => owned("user with this email already exists"),
            DomainError::LoginAlreadyTaken => owned("user with this login already exists"),
            DomainError::Underage { required, actual } => two_numbers(
                "user is underage (required ",
                *required as i64,
                ", got ",
                *actual as i64,
                ")",
            ),
            DomainError::UserNotFound => owned("user not found"),
            DomainError::NotVerified => owned("user is not verified"),
            DomainError::AlreadyVerified => owned("user already verified"),
            DomainError::Blocked => owned("user is blocked"),
            DomainError::GunNotFound => owned("gun not found"),
            DomainError::GunSerialAlreadyExists => owned("gun with this serial already exists"),
            DomainError::AmmoLotNotFound => owned("ammo lot not found"),
            DomainError::AmmoInsufficient { have, need } => two_numbers(
                "not enough ammo on hand (have ",
                *have,
                ", need ",
                *need,
                ")",
            ),
            DomainError::LicenseNotFound => owned("license not found"),
            DomainError::LicenseExpired => owned("license already expired"),
            DomainError::BallisticProfileNotFound => owned("ballistic profile not found"),
            DomainError::BallisticInput(m) => {
                let mut s = owned("invalid ballistic input: ");
                s.append(m.as_str());
                s
            },
            DomainError::ScopeProfileNotFound => owned("scope profile not found"),
            DomainError::ScopeRangeExceeded => owned("requested adjustment exceeds scope range"),
            DomainError::LawNotFound => owned("law not found"),
            DomainError::NotOwner => owned("forbidden: resource not owned by current user"),
            DomainError::InvalidCredentials => owned("invalid credentials"),
            DomainError::InvalidToken => owned("token is invalid or malformed"),
            DomainError::TokenExpired => owned("token expired"),
            DomainError::SessionRevoked => owned("session not found or revoked"),
            DomainError::InvalidVerificationToken => owned("verification token invalid or expired"),
            DomainError::InvalidResetToken => owned("password reset token invalid or expired"),
            DomainError::Validation(v) => v.message(),
            DomainError::Infra(m) => {
                let mut s = owned("infrastructure error: ");
                s.append(m.as_str());
                s
            },
        }
    }

    /// Turns a "user not found" failure into an absent value; any other
    /// outcome passes through.
    pub fn not_found_to_option<T>(r: DomainResult<T>) -> (out: DomainResult<Option<T>>)
        ensures
            r matches Ok(v) ==> out == Ok::<Option<T>, DomainError>(Some(v)),
            r matches Err(e) ==> (if e == DomainError::UserNotFound {
                out == Ok::<Option<T>, DomainError>(None)
            } else {
                out == Err::<Option<T>, DomainError>(e)
            }),
    {
        match r {
            Ok(v) => Ok(Some(v)),
            Err(DomainError::UserNotFound) => Ok(None),
            Err(other) => Err(other),
        }
    }

    /// A validation failure with a free-form message.
    pub fn custom(msg: &str) -> (e: DomainError)
        ensures
            is_custom(e, msg@),
    {
        DomainError::Validation(ValidationError::Custom(owned(msg)))
    }
}

impl ValidationError {
    /// A free-form validation failure.
    pub fn custom(msg: &str) -> (v: ValidationError)
        ensures
            is_custom_validation(v, msg@),
    {
        ValidationError::Custom(owned(msg))
    }
}

impl From<ValidationError> for DomainError {
    fn from(v: ValidationError) -> (e: DomainError) {
        DomainError::Validation(v)
    }
}

impl vstd::std_specs::convert::FromSpecImpl<ValidationError> for DomainError {
    open spec fn obeys_from_spec() -> bool {
        true
    }

    open spec fn from_spec(v: ValidationError) -> DomainError {
        DomainError::Validation(v)
    }
}

} // verus!
