//! The decisions of the account flows: registration, e-mail
//! verification, login and password reset. The lookups, hashing, mail
//! and persistence in between are the caller's; each decision here takes
//! what the previous step returned.

use vstd::prelude::*;
use vstd::utf8::{decode_utf8, encode_utf8, valid_utf8};
use crate::base64::{
    decode_seq, encode_bytes, encode_seq, lemma_decode_encode, lemma_encode_len, utf8_text,
};
use crate::clock::{day_in_range, Date, Timestamp};
use crate::errors::{DomainError, DomainResult, ValidationError};
use crate::identity::{
    email_acceptable, login_acceptable, password_fault, Credentials, Email, Login, Password, Token,
};
use crate::text::{ascii_lower_seq, concat3, contains_char, owned, trim_seq};
use crate::user::{
    age_on_days, is_fresh_user, language_of, region_acceptable, region_normal, Language, Region,
    User, UserStatus, DEFAULT_MINIMUM_AGE,
};

verus! {

// ------------------------------------------------------------------
// Registration
// ------------------------------------------------------------------

/// What a registration form carries.
#[derive(Debug)]
pub struct RegisterInput {
    pub login: String,
    pub firstname: String,
    pub surname: String,
    pub email: String,
    pub password: String,
    pub date_of_birth: Date,
    pub region: String,
    pub language: String,
}

/// What a registration answers.
#[derive(Debug, Clone, Copy)]
pub struct RegisterOutput {
    pub user_id: u128,
}

/// Every field check of a registration passes.
pub open spec fn registration_valid(i: RegisterInput) -> bool {
    &&& login_acceptable(trim_seq(i.login@))
    &&& email_acceptable(trim_seq(i.email@))
    &&& password_fault(i.password@) is None
    &&& region_acceptable(region_normal(i.region@))
    &&& language_of(ascii_lower_seq(i.language@)) is Some
}

/// The field checks run in the order login, e-mail, password, region,
/// language, and the first that fails is the answer.
pub open spec fn registration_checked(i: RegisterInput, r: DomainResult<(User, Password)>) -> bool {
    let login_ok = login_acceptable(trim_seq(i.login@));
    let email_ok = email_acceptable(trim_seq(i.email@));
    let password_ok = password_fault(i.password@) is None;
    let region_ok = region_acceptable(region_normal(i.region@));
    &&& !login_ok ==> r == Err::<(User, Password), DomainError>(
        DomainError::Validation(ValidationError::Login),
    )
    &&& login_ok && !email_ok ==> r == Err::<(User, Password), DomainError>(
        DomainError::Validation(ValidationError::Email),
    )
    &&& login_ok && email_ok ==> (password_fault(i.password@) matches Some(f) ==> r == Err::<
        (User, Password),
        DomainError,
    >(DomainError::Validation(f)))
    &&& login_ok && email_ok && password_ok && !region_ok ==> (r matches Err(
        DomainError::Validation(ValidationError::Region(v)),
    ) && v@ == region_normal(i.region@))
    &&& login_ok && email_ok && password_ok && region_ok && language_of(
        ascii_lower_seq(i.language@),
    ) is None ==> (r matches Err(DomainError::Validation(ValidationError::Language(v))) && v@
        == ascii_lower_seq(i.language@))
}

/// `u` is the user registered from `i`: trimmed login, trimmed and
/// lower-cased e-mail, normalised region, parsed language.
pub open spec fn registered_from(u: User, i: RegisterInput, id: u128, now: Timestamp) -> bool {
    is_fresh_user(
        u@,
        id,
        trim_seq(i.login@),
        i.firstname@,
        i.surname@,
        ascii_lower_seq(trim_seq(i.email@)),
        i.date_of_birth@,
        region_normal(i.region@),
        language_of(ascii_lower_seq(i.language@)).unwrap(),
        now,
    )
}

/// Validates a registration and builds the new user with the given id,
/// at instant `now` and calendar day `today`, with its password.
pub fn prepare_registration_at(input: RegisterInput, id: u128, now: Timestamp, today: Date) -> (r:
    DomainResult<(User, Password)>)
    ensures
        registration_checked(input, r),
        registration_valid(input) ==> (r is Ok <==> age_on_days(input.date_of_birth@, today@)
            >= DEFAULT_MINIMUM_AGE),
        registration_valid(input) && age_on_days(input.date_of_birth@, today@)
            < DEFAULT_MINIMUM_AGE ==> (r matches Err(DomainError::Underage { required, actual })
            && required == DEFAULT_MINIMUM_AGE && actual as int == age_on_days(
            input.date_of_birth@,
            today@,
        )),
        r matches Ok((u, p)) ==> registration_valid(input) && registered_from(u, input, id, now)
            && p@ == input.password@,
{
    let RegisterInput {
        login,
        firstname,
        surname,
        email,
        password,
        date_of_birth,
        region,
        language,
    } = input;
    let login = match Login::parse(login.as_str()) {
        Ok(l) => l,
        Err(e) => {
            return Err(DomainError::Validation(e));
        },
    };
    let email = match Email::parse(email.as_str()) {
        Ok(e) => e,
        Err(e) => {
            return Err(DomainError::Validation(e));
        },
    };
    let password = match Password::new(password) {
        Ok(p) => p,
        Err(e) => {
            return Err(DomainError::Validation(e));
        },
    };
    let region = match Region::new(region.as_str()) {
        Ok(r) => r,
        Err(e) => {
            return Err(DomainError::Validation(e));
        },
    };
    let language = match Language::parse(language.as_str()) {
        Ok(l) => l,
        Err(e) => {
            return Err(DomainError::Validation(e));
        },
    };
    match User::register_at(
        id,
        now,
        today,
        login.into_string(),
        firstname,
        surname,
        email.into_string(),
        date_of_birth,
        region,
        language,
    ) {
        Ok(u) => Ok((u, password)),
        Err(e) => Err(e),
    }
}

/// Validates a registration and builds the new user with a fresh id at
/// the current instant, checking the age against today's date.
pub fn prepare_registration(input: RegisterInput) -> (r: DomainResult<(User, Password)>)
    ensures
        registration_checked(input, r),
        registration_valid(input) && r is Err ==> (r matches Err(
            DomainError::Underage { required, actual },
        ) && required == DEFAULT_MINIMUM_AGE && actual < DEFAULT_MINIMUM_AGE),
        registration_valid(input) ==> exists|today: int|
            day_in_range(today) && (r is Ok <==> #[trigger] age_on_days(
                input.date_of_birth@,
                today,
            ) >= DEFAULT_MINIMUM_AGE),
        r matches Ok((u, p)) ==> registration_valid(input) && registered_from(
            u,
            input,
            u@.id,
            u@.created_at,
        ) && p@ == input.password@,
{
    let id = crate::clock::new_id();
    let now = Timestamp::now();
    let today = Date::today();
    let ghost dob = input.date_of_birth@;
    let r = prepare_registration_at(input, id, now, today);
    assert(day_in_range(today@) && (r is Ok <==> age_on_days(dob, today@) >= DEFAULT_MINIMUM_AGE)
        || !registration_valid(input));
    r
}

/// The link a verification mail carries.
pub fn verification_url(public_origin: &str, raw_token: &str) -> (r: String)
    ensures
        r@ == public_origin@ + "/api/v1/users/verify-email?token="@ + raw_token@,
{
    concat3(public_origin, "/api/v1/users/verify-email?token=", raw_token)
}

/// The link a password-reset mail carries.
pub fn reset_url(public_origin: &str, raw_token: &str) -> (r: String)
    ensures
        r@ == public_origin@ + "/api/v1/users/reset-password?token="@ + raw_token@,
{
    concat3(public_origin, "/api/v1/users/reset-password?token=", raw_token)
}

/// rand `rng().fill_bytes` on a 32-byte buffer: 32 random bytes. Nothing
/// is claimed of their values. The thread-local generator panics if the
/// operating system cannot seed it.
#[verifier::external_body]
fn random_bytes_32() -> (r: Vec<u8>)
    ensures
        r@.len() == 32,
{
    let mut buf = [0u8;32];
    rand::RngCore::fill_bytes(&mut rand::rng(), &mut buf);
    buf.to_vec()
}

/// A fresh raw token for e-mail verification or password reset: 32
/// random bytes, base64url-encoded without padding (43 symbols).
pub fn generate_random_token() -> (r: String)
    ensures
        r@.len() == 43,
        exists|b: Seq<u8>| b.len() == 32 && r@ == encode_seq(b),
{
    let buf = random_bytes_32();
    let r = encode_bytes(buf.as_slice());
    proof {
        lemma_encode_len(buf@);
    }
    r
}

/// Signs and verifies with the server's secret key (an HMAC in
/// production). Implementations must be deterministic: the signature of
/// a content depends on the content and the key alone, which is what lets
/// a token's stored signature be recomputed when the token comes back.
pub trait Signer {
    /// The signature of `content` under this signer's key.
    spec fn spec_sign(&self, content: Seq<char>) -> Seq<u8>;

    /// The keyed signature of `content`, as raw bytes.
    fn sign(&self, content: &str) -> (r: Vec<u8>)
        ensures
            r@ == self.spec_sign(content@),
    ;

    /// Whether `provided` is the signature of `content`.
    fn verify(&self, content: &str, provided: &[u8]) -> (r: bool)
        ensures
            r == (provided@ == self.spec_sign(content@)),
    ;
}

/// What is stored for a raw token: its signature, base64url-encoded.
pub fn signed_token_hash<S: Signer + ?Sized>(signer: &S, raw_token: &str) -> (r: String)
    ensures
        r@ == encode_seq(signer.spec_sign(raw_token@)),
{
    let sig = signer.sign(raw_token);
    encode_bytes(sig.as_slice())
}

/// The hash stored for a raw token is a function of the token: the hash
/// computed when the token comes back equals the one stored when it was
/// issued, and it decodes back to the token's signature.
pub proof fn lemma_token_hash_recomputes<S: Signer + ?Sized>(
    signer: &S,
    issued: Seq<char>,
    presented: Seq<char>,
)
    ensures
        issued == presented ==> encode_seq(signer.spec_sign(issued)) == encode_seq(
            signer.spec_sign(presented),
        ),
        decode_seq(encode_seq(signer.spec_sign(issued))) == Some(signer.spec_sign(issued)),
{
    lemma_decode_encode(signer.spec_sign(issued));
}

// ------------------------------------------------------------------
// E-mail verification
// ------------------------------------------------------------------

/// The query of the verification link.
#[derive(Debug, Clone)]
pub struct VerifyEmailQuery {
    pub token: String,
}

/// What follows an attempt to mark a user verified.
#[derive(Debug)]
pub enum VerifyEmailStep {
    /// The user is verified now.
    Verified(u128),
    /// The user was not pending: load it to tell why.
    LookUpUser(u128),
    /// The attempt failed otherwise.
    Failed(DomainError),
}

/// The outcome of marking `user_id` verified: success, a look-up of the
/// user when it was already verified (or blocked), or the failure.
pub fn after_mark_verified(user_id: u128, marked: DomainResult<()>) -> (r: VerifyEmailStep)
    ensures
        marked is Ok ==> r == VerifyEmailStep::Verified(user_id),
        marked == Err::<(), DomainError>(DomainError::AlreadyVerified) ==> r
            == VerifyEmailStep::LookUpUser(user_id),
        marked matches Err(e) ==> (e != DomainError::AlreadyVerified ==> r
            == VerifyEmailStep::Failed(e)),
{
    match marked {
        Ok(()) => VerifyEmailStep::Verified(user_id),
        Err(DomainError::AlreadyVerified) => VerifyEmailStep::LookUpUser(user_id),
        Err(e) => VerifyEmailStep::Failed(e),
    }
}

/// Why a user could not be marked verified, from the look-up: a blocked
/// user is `Blocked`, any other `AlreadyVerified`; a missing one
/// `UserNotFound`; a failed look-up its failure.
pub fn already_verified_reason(found: DomainResult<Option<User>>) -> (e: DomainError)
    ensures
        found matches Err(d) ==> e == d,
        found matches Ok(None) ==> e == DomainError::UserNotFound,
        found matches Ok(Some(u)) ==> e == (if u@.status == UserStatus::Blocked {
            DomainError::Blocked
        } else {
            DomainError::AlreadyVerified
        }),
{
    match found {
        Err(d) => d,
        Ok(None) => DomainError::UserNotFound,
        Ok(Some(u)) => if u.is_blocked() {
            DomainError::Blocked
        } else {
            DomainError::AlreadyVerified
        },
    }
}

// ------------------------------------------------------------------
// Login
// ------------------------------------------------------------------

/// A well-formed argon2id hash that no password is checked against in
/// earnest: verifying against it when the user is unknown takes as long
/// as a real check, so response times do not tell whether an account
/// exists.
pub const DUMMY_PHC: &'static str = "$argon2id$v=19$m=19456,t=2,p=1$YWFhYWFhYWFhYWFhYWFhYQ$qwNFCvR3cAQwsJM4QXxabHsq9XdmygOFnRWHd8e9Sb4";

/// What a login form carries.
#[derive(Debug)]
pub struct LoginInput {
    pub login_or_email: String,
    pub password: String,
    pub user_agent: Option<String>,
    /// The client address, as text.
    pub ip: Option<String>,
}

/// What a successful login answers.
#[derive(Debug, Clone)]
pub struct LoginOutput {
    pub user_id: u128,
    pub session_id: u128,
    pub access_token: Token,
}

/// How the user of a login is looked up.
#[derive(Debug, Clone, Copy, PartialEq, Eq, Structural)]
pub enum UserLookup {
    ByEmail,
    ByLogin,
}

/// An identifier with an `@` is an e-mail address, anything else a login.
pub fn login_lookup(login_or_email: &str) -> (r: UserLookup)
    ensures
        r == (if login_or_email@.contains('@') {
            UserLookup::ByEmail
        } else {
            UserLookup::ByLogin
        }),
{
    if contains_char(login_or_email, '@') {
        UserLookup::ByEmail
    } else {
        UserLookup::ByLogin
    }
}

/// The hash the password is checked against: the stored one, or
/// [`DUMMY_PHC`] when there is none.
pub fn hash_to_check(credentials: Option<&Credentials>) -> (r: String)
    ensures
        credentials matches Some(c) ==> r@ == c.password_hash_view(),
        credentials is None ==> r@ == DUMMY_PHC@,
{
    match credentials {
        Some(c) => owned(c.password_hash()),
        None => owned(DUMMY_PHC),
    }
}

/// Whether the login succeeds: an unknown user and a wrong password are
/// both `InvalidCredentials`; then a blocked user is `Blocked` and an
/// unverified one `NotVerified`.
pub fn admit_login(user: Option<User>, password_ok: bool) -> (r: DomainResult<User>)
    ensures
        user is None || !password_ok ==> r == Err::<User, DomainError>(
            DomainError::InvalidCredentials,
        ),
        user matches Some(u) ==> (password_ok ==> r == (if u@.status == UserStatus::Blocked {
            Err::<User, DomainError>(DomainError::Blocked)
        } else if u@.status != UserStatus::Verified {
            Err::<User, DomainError>(DomainError::NotVerified)
        } else {
            Ok::<User, DomainError>(u)
        })),
{
    let u = match user {
        Some(u) => u,
        None => {
            return Err(DomainError::InvalidCredentials);
        },
    };
    if !password_ok {
        return Err(DomainError::InvalidCredentials);
    }
    if u.is_blocked() {
        return Err(DomainError::Blocked);
    }
    if !u.is_verified() {
        return Err(DomainError::NotVerified);
    }
    Ok(u)
}

// ------------------------------------------------------------------
// Profile edits and password reset requests
// ------------------------------------------------------------------

/// What a profile edit carries; an absent field is left unchanged.
#[derive(Debug, Clone)]
pub struct EditUserInput {
    pub firstname: Option<String>,
    pub surname: Option<String>,
    pub region: Option<String>,
    pub language: Option<String>,
}

/// The body of a profile edit request.
#[derive(Debug, Clone)]
pub struct EditUserRequest {
    pub firstname: Option<String>,
    pub surname: Option<String>,
    pub region: Option<String>,
    pub language: Option<String>,
}

impl From<EditUserRequest> for EditUserInput {
    fn from(req: EditUserRequest) -> (r: EditUserInput) {
        EditUserInput {
            firstname: req.firstname,
            surname: req.surname,
            region: req.region,
            language: req.language,
        }
    }
}

impl vstd::std_specs::convert::FromSpecImpl<EditUserRequest> for EditUserInput {
    open spec fn obeys_from_spec() -> bool {
        true
    }

    open spec fn from_spec(req: EditUserRequest) -> EditUserInput {
        EditUserInput {
            firstname: req.firstname,
            surname: req.surname,
            region: req.region,
            language: req.language,
        }
    }
}

/// The body of a password reset request.
#[derive(Debug, Clone)]
pub struct RequestPasswordResetRequest {
    pub email: String,
}

// ------------------------------------------------------------------
// Field encryption
// ------------------------------------------------------------------

/// Why a field could not be encrypted or decrypted.
#[derive(Debug, Clone, PartialEq, Eq)]
pub enum CipherError {
    /// The cipher itself failed (bad key, tampered blob, ...).
    Backend(String),
    /// The decrypted bytes are not UTF-8.
    NotUtf8,
}

/// The decrypted text of a field: the plaintext bytes read as UTF-8.
pub fn plaintext_text(bytes: Result<Vec<u8>, CipherError>) -> (r: Result<String, CipherError>)
    ensures
        bytes matches Err(e) ==> r == Err::<String, CipherError>(e),
        bytes matches Ok(b) ==> (valid_utf8(b@) ==> (r matches Ok(t) && t@ == decode_utf8(b@))),
        bytes matches Ok(b) ==> (!valid_utf8(b@) ==> r == Err::<String, CipherError>(
            CipherError::NotUtf8,
        )),
{
    match bytes {
        Err(e) => Err(e),
        Ok(b) => match utf8_text(b) {
            Some(s) => Ok(s),
            None => Err(CipherError::NotUtf8),
        },
    }
}

/// Why a hex string does not decode (the `hex` crate's `FromHexError`).
#[derive(Debug, Clone, Copy, PartialEq, Eq, Structural)]
pub enum HexError {
    /// The byte at `index` (shown as a char) is not a hex digit.
    InvalidHexCharacter { c: char, index: usize },
    /// An odd number of digits.
    OddLength,
    /// A decoded length that does not fit a fixed-size target.
    InvalidStringLength,
}

/// The value of a hex digit (either case), if `b` is one.
pub open spec fn hex_value(b: u8) -> Option<u8> {
    if 48 <= b <= 57 {
        Some((b - 48) as u8)
    } else if 65 <= b <= 70 {
        Some((b - 55) as u8)
    } else if 97 <= b <= 102 {
        Some((b - 87) as u8)
    } else {
        None
    }
}

/// The first index at or after `from` whose byte is not a hex digit, or
/// the length when there is none.
pub open spec fn first_non_hex(bytes: Seq<u8>, from: int) -> int
    decreases bytes.len() - from,
{
    if from >= bytes.len() {
        bytes.len() as int
    } else if hex_value(bytes[from]) is None {
        from
    } else {
        first_non_hex(bytes, from + 1)
    }
}

/// The bytes that pairs of hex digits stand for, high digit first.
pub open spec fn hex_pairs(bytes: Seq<u8>) -> Seq<u8> {
    Seq::new(
        bytes.len() / 2,
        |k: int| (16 * hex_value(bytes[2 * k])->0 + hex_value(bytes[2 * k + 1])->0) as u8,
    )
}

/// What hex-decoding the bytes `bytes` gives: an odd length is refused
/// first, then the first byte that is not a hex digit.
pub open spec fn hex_decoded(bytes: Seq<u8>) -> Result<Seq<u8>, HexError> {
    if bytes.len() % 2 != 0 {
        Err(HexError::OddLength)
    } else if first_non_hex(bytes, 0) < bytes.len() {
        let i = first_non_hex(bytes, 0);
        Err(HexError::InvalidHexCharacter { c: bytes[i] as char, index: i as usize })
    } else {
        Ok(hex_pairs(bytes))
    }
}

/// A decoding outcome with the bytes taken by their view.
pub open spec fn hex_outcome(r: Result<Vec<u8>, HexError>) -> Result<Seq<u8>, HexError> {
    match r {
        Ok(v) => Ok(v@),
        Err(e) => Err(e),
    }
}

/// hex `decode` on the UTF-8 bytes of `text`: the odd-length check, then
/// each pair of digits in turn, stopping at the first non-digit. Claims
/// exactly what `hex_decoded` states.
#[verifier::external_body]
fn hex_decode(text: &str) -> (r: Result<Vec<u8>, HexError>)
    ensures
        hex_outcome(r) == hex_decoded(encode_utf8(text@)),
{
    match hex::decode(text) {
        Ok(v) => Ok(v),
        Err(hex::FromHexError::InvalidHexCharacter { c, index }) => Err(
            HexError::InvalidHexCharacter { c, index },
        ),
        Err(hex::FromHexError::OddLength) => Err(HexError::OddLength),
        Err(hex::FromHexError::InvalidStringLength) => Err(HexError::InvalidStringLength),
    }
}

/// The field-encryption key from its hex form (as `openssl rand -hex 32`
/// prints it), digits in either case.
pub fn field_key_from_hex(hex_key: &str) -> (r: Result<Vec<u8>, HexError>)
    ensures
        hex_outcome(r) == hex_decoded(encode_utf8(hex_key@)),
{
    hex_decode(hex_key)
}

/// A byte outcome with the bytes taken by their view.
pub open spec fn bytes_outcome(r: Result<Vec<u8>, CipherError>) -> Result<Seq<u8>, CipherError> {
    match r {
        Ok(v) => Ok(v@),
        Err(e) => Err(e),
    }
}

/// A text outcome with the text taken by its view.
pub open spec fn text_outcome(r: Result<String, CipherError>) -> Result<Seq<char>, CipherError> {
    match r {
        Ok(t) => Ok(t@),
        Err(e) => Err(e),
    }
}

/// A decrypted outcome read as UTF-8 text: failures pass through, bytes
/// that are not UTF-8 are `NotUtf8`.
pub open spec fn plaintext_of(out: Result<Seq<u8>, CipherError>) -> Result<Seq<char>, CipherError> {
    match out {
        Err(e) => Err(e),
        Ok(b) => if valid_utf8(b) {
            Ok(decode_utf8(b))
        } else {
            Err(CipherError::NotUtf8)
        },
    }
}

/// Field-level encryption of stored values (authenticated: a tampered
/// blob does not decrypt). An implementation names, through
/// `spec_encrypts` and `spec_decrypts`, the outcomes its `encrypt` and
/// `decrypt` may give.
pub trait FieldCipher {
    /// `out` is an outcome `encrypt` may give for `plaintext` under this
    /// cipher's key (encryption draws a fresh nonce, so several outcomes
    /// may fit).
    spec fn spec_encrypts(&self, plaintext: Seq<u8>, out: Result<Seq<u8>, CipherError>) -> bool;

    /// `out` is an outcome `decrypt` may give for `blob` under this
    /// cipher's key.
    spec fn spec_decrypts(&self, blob: Seq<u8>, out: Result<Seq<u8>, CipherError>) -> bool;

    /// Encrypts a plaintext into the stored format.
    fn encrypt(&self, plaintext: &[u8]) -> (r: Result<Vec<u8>, CipherError>)
        ensures
            self.spec_encrypts(plaintext@, bytes_outcome(r)),
    ;

    /// Decrypts a stored blob.
    fn decrypt(&self, blob: &[u8]) -> (r: Result<Vec<u8>, CipherError>)
        ensures
            self.spec_decrypts(blob@, bytes_outcome(r)),
    ;

    /// Encrypts the UTF-8 bytes of `s`.
    fn encrypt_str(&self, s: &str) -> (r: Result<Vec<u8>, CipherError>)
        ensures
            self.spec_encrypts(encode_utf8(s@), bytes_outcome(r)),
    {
        self.encrypt(s.as_bytes())
    }

    /// Decrypts a blob holding UTF-8 text: what `decrypt` gives, read as
    /// UTF-8.
    fn decrypt_str(&self, blob: &[u8]) -> (r: Result<String, CipherError>)
        ensures
            exists|out: Result<Seq<u8>, CipherError>|
                #[trigger] self.spec_decrypts(blob@, out) && text_outcome(r) == plaintext_of(out),
            r matches Ok(t) ==> exists|b: Seq<u8>| valid_utf8(b) && t@ == decode_utf8(b),
    {
        let d = self.decrypt(blob);
        let ghost out = bytes_outcome(d);
        let r = plaintext_text(d);
        assert(self.spec_decrypts(blob@, out) && text_outcome(r) == plaintext_of(out));
        r
    }
}

} // verus!
