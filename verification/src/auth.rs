//! Sessions and the decisions of bearer-token authentication.
//!
//! A request is admitted in steps, each of which may refuse it with a 401
//! (or a 403 for a missing admin privilege):
//! 1. the `Authorization` header must carry `Bearer <token>`;
//! 2. the token must parse;
//! 3. the token handler must accept its signature and expiry;
//! 4. its ident must be a session id, and the session must be active;
//! 5. the session's user must exist and not be blocked (and, for admin
//!    routes, be an admin).
//! The lookups in between are the caller's; each step here takes what the
//! previous lookup returned.

use vstd::prelude::*;
use crate::api_error::{
    domain_answer_message, domain_code, ApiError, STATUS_FORBIDDEN, STATUS_UNAUTHORIZED,
};
use crate::clock::{parse_id, uuid_parsed, Timestamp};
use crate::errors::{DomainError, DomainResult};
use crate::identity::{token_parse, Token};
use crate::text::{owned, strip_prefix};
use crate::user::{User, UserStatus};

verus! {

/// A login session.
#[derive(Debug, Clone)]
pub struct Session {
    pub id: u128,
    pub user_id: u128,
    pub created_at: Timestamp,
    pub expires_at: Timestamp,
    pub revoked_at: Option<Timestamp>,
}

impl Session {
    /// Not revoked, and expiring after `now`.
    pub fn is_active(&self, now: Timestamp) -> (r: bool)
        ensures
            r == (self.revoked_at is None && now.micros < self.expires_at.micros),
    {
        self.revoked_at.is_none() && now.is_before(&self.expires_at)
    }
}

/// The authenticated user, as handed to the handlers.
#[derive(Debug, Clone)]
pub struct AuthUser(pub User);

/// The session a request was authenticated with.
#[derive(Debug, Clone, Copy)]
pub struct AuthSession {
    pub session_id: u128,
}

/// The token carried by an `Authorization` header value: what follows
/// `Bearer ` (or `bearer `).
pub open spec fn bearer_of(header: Seq<char>) -> Option<Seq<char>> {
    if "Bearer "@.is_prefix_of(header) {
        Some(header.skip(7))
    } else if "bearer "@.is_prefix_of(header) {
        Some(header.skip(7))
    } else {
        None
    }
}

/// The bearer token in the `Authorization` header value, if any.
pub fn extract_bearer(header: Option<&str>) -> (r: Option<String>)
    ensures
        header is None ==> r is None,
        header matches Some(h) ==> (match bearer_of(h@) {
            Some(t) => r matches Some(s) && s@ == t,
            None => r is None,
        }),
{
    proof {
        reveal_strlit("Bearer ");
        reveal_strlit("bearer ");
    }
    match header {
        None => None,
        Some(h) => match strip_prefix(h, "Bearer ") {
            Some(t) => Some(t),
            None => strip_prefix(h, "bearer "),
        },
    }
}

/// `r` is the 401 with this code and message.
pub open spec fn is_unauthorized(r: ApiError, code: &'static str, message: Seq<char>) -> bool {
    &&& r.status == STATUS_UNAUTHORIZED
    &&& r.code == code
    &&& r.message@ == message
    &&& r.request_id is None
}

fn unauthorized(code: &'static str, message: &str) -> (r: ApiError)
    ensures
        is_unauthorized(r, code, message@),
{
    ApiError::unauthorized(code, owned(message))
}

/// Steps 1 and 2: the token of the `Authorization` header. No bearer
/// token is `AUTH_MISSING`; one that does not parse is
/// `AUTH_INVALID_TOKEN` ("token malformed").
pub fn bearer_token(header: Option<&str>) -> (r: Result<Token, ApiError>)
    ensures
        (match header {
            None => None,
            Some(h) => bearer_of(h@),
        }) matches Some(raw) ==> (match token_parse(raw) {
            Ok(parts) => r matches Ok(t) && (t.ident@, t.exp@, t.sign_b64u@) == parts,
            Err(_) => r matches Err(e) && is_unauthorized(
                e,
                "AUTH_INVALID_TOKEN",
                "token malformed"@,
            ),
        }),
        (match header {
            None => None,
            Some(h) => bearer_of(h@),
        }) is None ==> (r matches Err(e) && is_unauthorized(
            e,
            "AUTH_MISSING",
            "missing bearer token"@,
        )),
        r matches Err(e) ==> e.status == STATUS_UNAUTHORIZED,
{
    let raw = match extract_bearer(header) {
        Some(raw) => raw,
        None => {
            return Err(unauthorized("AUTH_MISSING", "missing bearer token"));
        },
    };
    match Token::parse_token(raw.as_str()) {
        Ok(t) => Ok(t),
        Err(_) => Err(unauthorized("AUTH_INVALID_TOKEN", "token malformed")),
    }
}

/// Step 3: the token handler's verdict on signature and expiry.
pub fn token_verdict(valid: bool) -> (r: Result<(), ApiError>)
    ensures
        valid ==> r is Ok,
        !valid ==> (r matches Err(e) && is_unauthorized(
            e,
            "AUTH_INVALID_TOKEN",
            "token invalid or expired"@,
        )),
        r matches Err(e) ==> e.status == STATUS_UNAUTHORIZED,
{
    if valid {
        Ok(())
    } else {
        Err(unauthorized("AUTH_INVALID_TOKEN", "token invalid or expired"))
    }
}

/// Step 4a: the session id the token names.
pub fn session_id_of(token: &Token) -> (r: Result<u128, ApiError>)
    ensures
        uuid_parsed(token.ident@) matches Some(id) ==> r == Ok::<u128, ApiError>(id),
        uuid_parsed(token.ident@) is None ==> (r matches Err(e) && is_unauthorized(
            e,
            "AUTH_INVALID_TOKEN",
            "token subject is not a session id"@,
        )),
        r matches Err(e) ==> e.status == STATUS_UNAUTHORIZED,
{
    match parse_id(token.ident.as_str()) {
        Some(id) => Ok(id),
        None => Err(unauthorized("AUTH_INVALID_TOKEN", "token subject is not a session id")),
    }
}

/// `r` refuses authentication because a look-up failed with `d`: a 401
/// carrying the code and the (detail-free) message `d` is answered with.
pub open spec fn refuses_for(r: ApiError, d: DomainError) -> bool {
    &&& r.status == STATUS_UNAUTHORIZED
    &&& r.code == domain_code(d)
    &&& r.message@ == domain_answer_message(d)
    &&& r.request_id is None
}

/// A look-up failure during authentication, answered as a 401: every
/// failure of the pipeline is.
fn lookup_refusal(d: DomainError) -> (r: ApiError)
    ensures
        refuses_for(r, d),
{
    let mut a = ApiError::from_domain(d);
    a.status = STATUS_UNAUTHORIZED;
    a
}

/// Step 4b: the outcome of looking up the active session. No active
/// session is `AUTH_SESSION_REVOKED`; a failed lookup is a 401 with that
/// failure's code. Every refusal is a 401.
pub fn active_session(found: DomainResult<Option<Session>>) -> (r: Result<Session, ApiError>)
    ensures
        found matches Ok(Some(s)) ==> r == Ok::<Session, ApiError>(s),
        found matches Ok(None) ==> (r matches Err(e) && is_unauthorized(
            e,
            "AUTH_SESSION_REVOKED",
            "session not found or revoked"@,
        )),
        found matches Err(d) ==> (r matches Err(e) && refuses_for(e, d)),
        r matches Err(e) ==> e.status == STATUS_UNAUTHORIZED,
{
    match found {
        Ok(Some(s)) => Ok(s),
        Ok(None) => Err(unauthorized("AUTH_SESSION_REVOKED", "session not found or revoked")),
        Err(d) => Err(lookup_refusal(d)),
    }
}

/// Step 5: the outcome of loading the session's user. A failed lookup is
/// a 401 with that failure's code; a missing user is `USER_NOT_FOUND`, a
/// blocked one `USER_BLOCKED`; when `admin_required`, a non-admin is a
/// 403 `ADMIN_REQUIRED`. Every other refusal is a 401.
pub fn admit_user(found: DomainResult<Option<User>>, admin_required: bool) -> (r: Result<
    User,
    ApiError,
>)
    ensures
        found matches Err(d) ==> (r matches Err(e) && refuses_for(e, d)),
        r matches Err(e) ==> (e.status == STATUS_UNAUTHORIZED || (admin_required && e.status
            == STATUS_FORBIDDEN && e.code == "ADMIN_REQUIRED")),
        found matches Ok(None) ==> (r matches Err(e) && is_unauthorized(
            e,
            "USER_NOT_FOUND",
            "user no longer exists"@,
        )),
        found matches Ok(Some(u)) ==> (u@.status == UserStatus::Blocked ==> (r matches Err(e)
            && is_unauthorized(e, "USER_BLOCKED", "user is blocked"@))),
        found matches Ok(Some(u)) ==> (u@.status != UserStatus::Blocked && admin_required
            && !u@.is_admin ==> (r matches Err(e) && e.status == STATUS_FORBIDDEN && e.code
            == "ADMIN_REQUIRED" && e.message@ == "admin privilege required"@ && e.request_id is None)),
        found matches Ok(Some(u)) ==> (u@.status != UserStatus::Blocked && (!admin_required
            || u@.is_admin) ==> (r matches Ok(v) && v@ == u@)),
{
    match found {
        Err(d) => Err(lookup_refusal(d)),
        Ok(None) => Err(unauthorized("USER_NOT_FOUND", "user no longer exists")),
        Ok(Some(u)) => {
            if u.is_blocked() {
                return Err(unauthorized("USER_BLOCKED", "user is blocked"));
            }
            if admin_required && !u.is_admin() {
                return Err(
                    ApiError::new(
                        STATUS_FORBIDDEN,
                        "ADMIN_REQUIRED",
                        owned("admin privilege required"),
                    ),
                );
            }
            Ok(u)
        },
    }
}

} // verus!
