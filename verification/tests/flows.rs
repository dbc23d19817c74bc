use dryfire_backend::account::{field_key_from_hex, HexError};
use dryfire_backend::account::{
    admit_login, after_mark_verified, already_verified_reason, generate_random_token,
    hash_to_check, login_lookup, plaintext_text, prepare_registration, prepare_registration_at,
    reset_url, signed_token_hash, verification_url, CipherError, EditUserInput, EditUserRequest,
    FieldCipher, RegisterInput, Signer, UserLookup, VerifyEmailStep, DUMMY_PHC,
};
use dryfire_backend::ammo::{transaction_to_record, RecordTransactionInput};
use dryfire_backend::api_error::{
    validation_to_api_error, ApiError, RequestId, STATUS_BAD_REQUEST, STATUS_CONFLICT,
    STATUS_FORBIDDEN, STATUS_INTERNAL_SERVER_ERROR, STATUS_NOT_FOUND, STATUS_UNAUTHORIZED,
};
use dryfire_backend::armory::{update_gun, Gun, UpdateGunInput, WeaponClass};
use dryfire_backend::audit::AuditEntry;
use dryfire_backend::auth::{
    active_session, admit_user, bearer_token, extract_bearer, session_id_of, token_verdict,
    Session,
};
use dryfire_backend::base64::{decode_bytes, decode_str, encode_bytes, encode_str};
use dryfire_backend::clock::{id_text, parse_id, Date, Timestamp, DATE_MAX_DAY, DATE_MIN_DAY};
use dryfire_backend::errors::{DomainError, ValidationError};
use dryfire_backend::identity::{Credentials, Token};
use dryfire_backend::license::License;
use dryfire_backend::sighting::{ComputeClicksUseCase, ComputeTrajectoryUseCase, ReZeroUseCase};
use dryfire_backend::user::{Language, Region, User, UserStatus};

const SAMPLE_ID: u128 = 0x67e5_5044_10b1_426f_9247_bb68_0e5f_e0c8;
const SAMPLE_TEXT: &str = "67e55044-10b1-426f-9247-bb680e5fe0c8";

fn ymd(y: i32, m: u32, d: u32) -> Date {
    Date::from_ymd(y, m, d).unwrap()
}

fn user_with(status: UserStatus, is_admin: bool) -> User {
    User::rehydrate(
        SAMPLE_ID,
        "jdoe".into(),
        "John".into(),
        "Doe".into(),
        "j@d.com".into(),
        ymd(1990, 1, 1),
        Region::new("RU").unwrap(),
        Language::EN,
        status,
        is_admin,
        None,
        Timestamp { micros: 0 },
        Timestamp { micros: 0 },
    )
}

fn registration() -> RegisterInput {
    RegisterInput {
        login: "  jdoe ".into(),
        firstname: "John".into(),
        surname: "Doe".into(),
        email: " J@D.com ".into(),
        password: "Aa1!aaaa".into(),
        date_of_birth: ymd(1990, 1, 1),
        region: " ru ".into(),
        language: "English".into(),
    }
}

// ------------------------------------------------------------ clock

#[test]
fn id_text_is_hyphenated_lowercase() {
    assert_eq!(id_text(SAMPLE_ID), SAMPLE_TEXT);
    assert_eq!(id_text(0), "00000000-0000-0000-0000-000000000000");
}

#[test]
fn parse_id_reads_back_id_text() {
    assert_eq!(parse_id(SAMPLE_TEXT), Some(SAMPLE_ID));
    assert_eq!(parse_id(&id_text(42)), Some(42));
    assert_eq!(parse_id("not-a-uuid"), None);
}

#[test]
fn dates_are_day_numbers_from_the_common_era() {
    assert_eq!(ymd(2024, 1, 1).day_number(), 738_886);
    assert_eq!(ymd(1970, 1, 1).day_number(), 719_163);
    assert_eq!(ymd(2024, 2, 29).ymd(), (2024, 2, 29));
    assert!(Date::from_ymd(2023, 2, 29).is_none());
    assert_eq!(ymd(2024, 3, 1).days_since(&ymd(2024, 2, 1)), 29);
}

#[test]
fn date_range_matches_chrono() {
    let min = chrono::Datelike::num_days_from_ce(&chrono::NaiveDate::MIN);
    let max = chrono::Datelike::num_days_from_ce(&chrono::NaiveDate::MAX);
    assert_eq!(min, DATE_MIN_DAY);
    assert_eq!(max, DATE_MAX_DAY);
    assert!(Date::from_day_number(DATE_MAX_DAY + 1).is_none());
    assert!(Date::from_day_number(DATE_MIN_DAY).is_some());
}

// ----------------------------------------------------------- base64

#[test]
fn base64url_without_padding() {
    assert_eq!(encode_str("abc"), "YWJj");
    assert_eq!(encode_bytes(b"hi?>"), "aGk_Pg");
    assert_eq!(decode_bytes("aGk_Pg"), Some(b"hi?>".to_vec()));
    assert_eq!(decode_str("YWJj"), Some("abc".to_string()));
    assert_eq!(decode_bytes("a"), None);
    assert_eq!(decode_bytes("a+b/"), None);
    assert_eq!(decode_str("_w"), None);
}

// ------------------------------------------------------- api errors

#[test]
fn domain_errors_map_to_status_and_code() {
    let e = ApiError::from_domain(DomainError::EmailAlreadyExists);
    assert_eq!((e.status, e.code), (STATUS_CONFLICT, "USER_EMAIL_ALREADY_EXISTS"));
    assert_eq!(e.message, "user with this email already exists");
    assert!(e.request_id.is_none());

    let e = ApiError::from_domain(DomainError::UserNotFound);
    assert_eq!((e.status, e.code), (STATUS_NOT_FOUND, "USER_NOT_FOUND"));
    let e = ApiError::from_domain(DomainError::NotVerified);
    assert_eq!((e.status, e.code), (STATUS_FORBIDDEN, "USER_NOT_VERIFIED"));
    let e = ApiError::from_domain(DomainError::SessionRevoked);
    assert_eq!((e.status, e.code), (STATUS_UNAUTHORIZED, "AUTH_SESSION_REVOKED"));
    let e = ApiError::from_domain(DomainError::InvalidResetToken);
    assert_eq!((e.status, e.code), (STATUS_BAD_REQUEST, "AUTH_INVALID_RESET_TOKEN"));
    let e = ApiError::from_domain(DomainError::GunSerialAlreadyExists);
    assert_eq!((e.status, e.code), (STATUS_CONFLICT, "GUN_SERIAL_DUPLICATE"));
    let e = ApiError::from_domain(DomainError::NotOwner);
    assert_eq!((e.status, e.code), (STATUS_FORBIDDEN, "NOT_OWNER"));
    assert_eq!(e.message, "forbidden: resource not owned by current user");

    let e = ApiError::from_domain(DomainError::Underage { required: 18, actual: 10 });
    assert_eq!((e.status, e.code), (STATUS_BAD_REQUEST, "USER_UNDERAGE"));
    assert_eq!(e.message, "user is underage (required 18, got 10)");

    let e = ApiError::from_domain(DomainError::AmmoInsufficient { have: -3, need: 1200 });
    assert_eq!(e.code, "AMMO_INSUFFICIENT");
    assert_eq!(e.message, "not enough ammo on hand (have -3, need 1200)");
}

#[test]
fn server_errors_never_leak_detail() {
    let e = ApiError::from_domain(DomainError::Infra("connection refused".into()));
    assert_eq!(e.status, STATUS_INTERNAL_SERVER_ERROR);
    assert_eq!(e.code, "INTERNAL_ERROR");
    assert_eq!(e.message, "internal error");
    assert_eq!(
        DomainError::Infra("connection refused".into()).message(),
        "infrastructure error: connection refused"
    );
}

#[test]
fn validation_errors_are_bad_requests() {
    let e = ApiError::from_domain(DomainError::Validation(ValidationError::Login));
    assert_eq!((e.status, e.code), (STATUS_BAD_REQUEST, "VALIDATION_LOGIN"));
    assert_eq!(e.message, "login must be 3..=64 chars, ASCII letters/digits/underscore only");

    let e = ApiError::from_validation(ValidationError::Region("RUS".into()));
    assert_eq!(e.code, "VALIDATION_REGION");
    assert_eq!(e.message, "invalid region code `RUS` \u{2014} expected ISO 3166-1 alpha-2");

    let e = validation_to_api_error(&ValidationError::Custom("bad".into()));
    assert_eq!((e.status, e.code), (STATUS_BAD_REQUEST, "VALIDATION_FAILED"));
    assert_eq!(e.message, "validation failed: bad");

    let e = validation_to_api_error(&ValidationError::Language("xx".into()));
    assert_eq!(e.code, "VALIDATION_LANGUAGE");
    assert_eq!(e.message, "unsupported language `xx`");
}

#[test]
fn api_error_builders() {
    let e = ApiError::unauthorized("AUTH_MISSING", "missing bearer token".into())
        .with_request_id(Some("rid-1".into()));
    assert_eq!(e.status, STATUS_UNAUTHORIZED);
    let (status, body) = e.into_parts();
    assert_eq!(status, 401);
    assert_eq!(body.error.code, "AUTH_MISSING");
    assert_eq!(body.error.message, "missing bearer token");
    assert_eq!(body.error.request_id.as_deref(), Some("rid-1"));

    let e = ApiError::internal("boom".into());
    assert_eq!((e.status, e.code, e.message.as_str()), (500, "INTERNAL_ERROR", "boom"));
    let e = ApiError::new(418, "TEAPOT", "short and stout".into());
    assert_eq!((e.status, e.code), (418, "TEAPOT"));
}

#[test]
fn request_id_prefers_the_header() {
    assert_eq!(RequestId::from_header(Some("abc-123")).0, "abc-123");
    let fresh = RequestId::from_header(None).0;
    assert_eq!(fresh.len(), 36);
    assert!(parse_id(&fresh).is_some());
}

// ------------------------------------------------------------- auth

#[test]
fn bearer_prefix_is_stripped() {
    assert_eq!(extract_bearer(Some("Bearer abc.def")), Some("abc.def".to_string()));
    assert_eq!(extract_bearer(Some("bearer abc")), Some("abc".to_string()));
    assert_eq!(extract_bearer(Some("Basic abc")), None);
    assert_eq!(extract_bearer(Some("BEARER abc")), None);
    assert_eq!(extract_bearer(None), None);
}

#[test]
fn bearer_token_steps() {
    let e = bearer_token(None).unwrap_err();
    assert_eq!((e.status, e.code), (401, "AUTH_MISSING"));
    assert_eq!(e.message, "missing bearer token");

    let e = bearer_token(Some("Token abc")).unwrap_err();
    assert_eq!(e.code, "AUTH_MISSING");

    let e = bearer_token(Some("Bearer only.two")).unwrap_err();
    assert_eq!((e.code, e.message.as_str()), ("AUTH_INVALID_TOKEN", "token malformed"));

    let t = Token { ident: SAMPLE_TEXT.into(), exp: "2030-01-01T00:00:00+00:00".into(), sign_b64u: "c2ln".into() };
    let header = format!("Bearer {}", t.to_string());
    let parsed = bearer_token(Some(&header)).unwrap();
    assert_eq!(parsed, t);
    assert_eq!(session_id_of(&parsed).unwrap(), SAMPLE_ID);

    let odd = Token { ident: "abc".into(), exp: "x".into(), sign_b64u: "s".into() };
    let e = session_id_of(&odd).unwrap_err();
    assert_eq!(e.message, "token subject is not a session id");
}

#[test]
fn token_verdict_and_session_lookup() {
    assert!(token_verdict(true).is_ok());
    let e = token_verdict(false).unwrap_err();
    assert_eq!((e.code, e.message.as_str()), ("AUTH_INVALID_TOKEN", "token invalid or expired"));

    let s = Session {
        id: 1,
        user_id: 2,
        created_at: Timestamp { micros: 0 },
        expires_at: Timestamp { micros: 100 },
        revoked_at: None,
    };
    assert!(s.is_active(Timestamp { micros: 99 }));
    assert!(!s.is_active(Timestamp { micros: 100 }));
    let revoked = Session { revoked_at: Some(Timestamp { micros: 5 }), ..s.clone() };
    assert!(!revoked.is_active(Timestamp { micros: 10 }));

    assert_eq!(active_session(Ok(Some(s))).unwrap().user_id, 2);
    let e = active_session(Ok(None)).unwrap_err();
    assert_eq!((e.status, e.code), (401, "AUTH_SESSION_REVOKED"));
    let e = active_session(Err(DomainError::Infra("db".into()))).unwrap_err();
    assert_eq!((e.status, e.code, e.message.as_str()), (401, "INTERNAL_ERROR", "internal error"));
}

#[test]
fn admit_user_steps() {
    let e = admit_user(Ok(None), false).unwrap_err();
    assert_eq!((e.code, e.message.as_str()), ("USER_NOT_FOUND", "user no longer exists"));
    let e = admit_user(Ok(Some(user_with(UserStatus::Blocked, true))), false).unwrap_err();
    assert_eq!((e.status, e.code), (401, "USER_BLOCKED"));
    let e = admit_user(Ok(Some(user_with(UserStatus::Verified, false))), true).unwrap_err();
    assert_eq!((e.status, e.code), (403, "ADMIN_REQUIRED"));
    assert_eq!(e.message, "admin privilege required");
    assert!(admit_user(Ok(Some(user_with(UserStatus::Pending, false))), false).is_ok());
    assert!(admit_user(Ok(Some(user_with(UserStatus::Verified, true))), true).is_ok());
    let e = admit_user(Err(DomainError::UserNotFound), false).unwrap_err();
    assert_eq!((e.status, e.code), (401, "USER_NOT_FOUND"));
    let e = admit_user(Err(DomainError::Infra("db down".into())), true).unwrap_err();
    assert_eq!((e.status, e.message.as_str()), (401, "internal error"));
}

// ---------------------------------------------------------- account

#[test]
fn registration_normalises_fields() {
    let now = Timestamp { micros: 1_700_000_000_000_000 };
    let (u, p) = prepare_registration_at(registration(), SAMPLE_ID, now, ymd(2024, 6, 1)).unwrap();
    assert_eq!(u.id(), SAMPLE_ID);
    assert_eq!(u.login(), "jdoe");
    assert_eq!(u.email(), "j@d.com");
    assert_eq!(u.region().as_str(), "RU");
    assert_eq!(u.language(), Language::EN);
    assert_eq!(u.status(), UserStatus::Pending);
    assert!(!u.is_admin());
    assert_eq!(u.created_at(), now);
    assert_eq!(p.expose(), "Aa1!aaaa");
    assert!(prepare_registration(registration()).is_ok());
}

#[test]
fn registration_checks_in_order() {
    let today = ymd(2024, 6, 1);
    let now = Timestamp { micros: 0 };
    let mut i = registration();
    i.login = "x".into();
    i.email = "nope".into();
    assert!(matches!(
        prepare_registration_at(i, 1, now, today),
        Err(DomainError::Validation(ValidationError::Login))
    ));
    let mut i = registration();
    i.email = "nope".into();
    i.password = "short".into();
    assert!(matches!(
        prepare_registration_at(i, 1, now, today),
        Err(DomainError::Validation(ValidationError::Email))
    ));
    let mut i = registration();
    i.password = "NoDigits!!".into();
    i.region = "RUS".into();
    assert!(matches!(
        prepare_registration_at(i, 1, now, today),
        Err(DomainError::Validation(ValidationError::PasswordNoDigit))
    ));
    let mut i = registration();
    i.region = "r1".into();
    i.language = "klingon".into();
    match prepare_registration_at(i, 1, now, today) {
        Err(DomainError::Validation(ValidationError::Region(v))) => assert_eq!(v, "R1"),
        _ => panic!("expected a region error"),
    }
    let mut i = registration();
    i.language = "Klingon".into();
    match prepare_registration_at(i, 1, now, today) {
        Err(DomainError::Validation(ValidationError::Language(v))) => assert_eq!(v, "klingon"),
        _ => panic!("expected a language error"),
    }
    let mut i = registration();
    i.date_of_birth = ymd(2006, 6, 2);
    assert!(matches!(
        prepare_registration_at(i, 1, now, today),
        Err(DomainError::Underage { required: 18, actual: 17 })
    ));
    let mut i = registration();
    i.date_of_birth = ymd(2006, 6, 1);
    assert!(prepare_registration_at(i, 1, now, today).is_ok());
}

#[test]
fn mail_links() {
    assert_eq!(
        verification_url("https://x.org", "tok"),
        "https://x.org/api/v1/users/verify-email?token=tok"
    );
    assert_eq!(reset_url("https://x.org", "tok"), "https://x.org/api/v1/users/reset-password?token=tok");
}

#[test]
fn random_tokens_are_43_symbols_of_32_bytes() {
    let a = generate_random_token();
    let b = generate_random_token();
    assert_eq!(a.len(), 43);
    assert_eq!(decode_bytes(&a).map(|v| v.len()), Some(32));
    assert_ne!(a, b);
}

struct ReverseSigner;

impl Signer for ReverseSigner {
    /// Exists for the verifier only; never called at run time.
    fn spec_sign(&self, _content: vstd::seq::Seq<char>) -> vstd::seq::Seq<u8> {
        panic!("specification only")
    }

    fn sign(&self, content: &str) -> Vec<u8> {
        content.bytes().rev().collect()
    }

    fn verify(&self, content: &str, provided: &[u8]) -> bool {
        self.sign(content) == provided
    }
}

#[test]
fn token_hash_is_the_encoded_signature() {
    assert_eq!(signed_token_hash(&ReverseSigner, "cba"), "YWJj");
}

#[test]
fn email_verification_outcomes() {
    assert!(matches!(after_mark_verified(7, Ok(())), VerifyEmailStep::Verified(7)));
    assert!(matches!(
        after_mark_verified(7, Err(DomainError::AlreadyVerified)),
        VerifyEmailStep::LookUpUser(7)
    ));
    assert!(matches!(
        after_mark_verified(7, Err(DomainError::InvalidVerificationToken)),
        VerifyEmailStep::Failed(DomainError::InvalidVerificationToken)
    ));
    assert_eq!(
        already_verified_reason(Ok(Some(user_with(UserStatus::Blocked, false)))),
        DomainError::Blocked
    );
    assert_eq!(
        already_verified_reason(Ok(Some(user_with(UserStatus::Verified, false)))),
        DomainError::AlreadyVerified
    );
    assert_eq!(already_verified_reason(Ok(None)), DomainError::UserNotFound);
    assert_eq!(already_verified_reason(Err(DomainError::LawNotFound)), DomainError::LawNotFound);
}

#[test]
fn login_decisions() {
    assert_eq!(login_lookup("j@d.com"), UserLookup::ByEmail);
    assert_eq!(login_lookup("jdoe"), UserLookup::ByLogin);

    let creds = Credentials::new("$argon2id$stored".into());
    assert_eq!(hash_to_check(Some(&creds)), "$argon2id$stored");
    assert_eq!(hash_to_check(None), DUMMY_PHC);

    assert_eq!(admit_login(None, true).unwrap_err(), DomainError::InvalidCredentials);
    assert_eq!(
        admit_login(Some(user_with(UserStatus::Verified, false)), false).unwrap_err(),
        DomainError::InvalidCredentials
    );
    assert_eq!(
        admit_login(Some(user_with(UserStatus::Blocked, false)), true).unwrap_err(),
        DomainError::Blocked
    );
    assert_eq!(
        admit_login(Some(user_with(UserStatus::Pending, false)), true).unwrap_err(),
        DomainError::NotVerified
    );
    assert_eq!(admit_login(Some(user_with(UserStatus::Verified, false)), true).unwrap().id(), SAMPLE_ID);
}

#[test]
fn edit_request_becomes_input() {
    let input: EditUserInput = EditUserRequest {
        firstname: Some("Jane".into()),
        surname: None,
        region: Some("US".into()),
        language: None,
    }
    .into();
    assert_eq!(input.firstname.as_deref(), Some("Jane"));
    assert_eq!(input.region.as_deref(), Some("US"));
    assert!(input.surname.is_none() && input.language.is_none());
}

struct XorCipher;

impl FieldCipher for XorCipher {
    /// Exists for the verifier only; never called at run time.
    fn spec_encrypts(
        &self,
        _plaintext: vstd::seq::Seq<u8>,
        _out: Result<vstd::seq::Seq<u8>, CipherError>,
    ) -> bool {
        panic!("specification only")
    }

    /// Exists for the verifier only; never called at run time.
    fn spec_decrypts(
        &self,
        _blob: vstd::seq::Seq<u8>,
        _out: Result<vstd::seq::Seq<u8>, CipherError>,
    ) -> bool {
        panic!("specification only")
    }

    fn encrypt(&self, plaintext: &[u8]) -> Result<Vec<u8>, CipherError> {
        Ok(plaintext.iter().map(|b| b ^ 0x5a).collect())
    }

    fn decrypt(&self, blob: &[u8]) -> Result<Vec<u8>, CipherError> {
        if blob.is_empty() {
            return Err(CipherError::Backend("empty blob".into()));
        }
        Ok(blob.iter().map(|b| b ^ 0x5a).collect())
    }
}

#[test]
fn field_cipher_text_helpers() {
    let blob = XorCipher.encrypt_str("Серийный 42").unwrap();
    assert_eq!(XorCipher.decrypt_str(&blob).unwrap(), "Серийный 42");
    assert_eq!(XorCipher.decrypt_str(&[]), Err(CipherError::Backend("empty blob".into())));
    assert_eq!(XorCipher.decrypt_str(&[0xff ^ 0x5a]), Err(CipherError::NotUtf8));
    assert_eq!(plaintext_text(Ok(vec![0xc3, 0xa9])), Ok("é".to_string()));
}

// -------------------------------------------------- laws, concretely

#[test]
fn verification_happens_once() {
    let mut u = user_with(UserStatus::Pending, false);
    u.mark_verified_at(Timestamp { micros: 10 }).unwrap();
    assert_eq!(u.status(), UserStatus::Verified);
    assert_eq!(u.updated_at(), Timestamp { micros: 10 });
    assert_eq!(u.mark_verified_at(Timestamp { micros: 20 }), Err(DomainError::AlreadyVerified));
    assert_eq!(u.updated_at(), Timestamp { micros: 10 });
}

#[test]
fn blocked_users_stay_blocked() {
    let mut u = user_with(UserStatus::Verified, false);
    u.block_at(Timestamp { micros: 5 });
    assert!(u.is_blocked());
    assert_eq!(u.mark_verified_at(Timestamp { micros: 6 }), Err(DomainError::Blocked));
    assert!(u.is_blocked());
    assert_eq!(u.updated_at(), Timestamp { micros: 5 });
}

#[test]
fn users_come_of_age_on_their_birthday() {
    let u = user_with(UserStatus::Verified, false);
    assert_eq!(u.age_on(ymd(2008, 1, 1)), 18);
    assert_eq!(u.age_on(ymd(2007, 12, 31)), 17);
    assert!(u.is_of_legal_age_on(ymd(2008, 1, 1)));
    assert!(!u.is_of_legal_age_on(ymd(2007, 12, 31)));
}

#[test]
fn empty_gun_update_only_stamps_time() {
    let g = Gun::register_at(
        3,
        Timestamp { micros: 1 },
        4,
        None,
        " Sako ".into(),
        "TRG-22".into(),
        WeaponClass::Rifle,
        ".308".into(),
        " ABC123456 ".into(),
        ymd(2024, 6, 1),
        None,
        None,
    )
    .unwrap();
    assert_eq!(g.manufacturer(), "Sako");
    assert_eq!(g.serial(), "ABC123456");
    let empty = UpdateGunInput {
        catalog_id: None,
        manufacturer: None,
        model: None,
        class: None,
        caliber: None,
        serial: None,
        date_of_purchase: None,
        photo_url: None,
        notes: None,
    };
    let h = update_gun(g.clone(), empty, Timestamp { micros: 9 }).unwrap();
    assert_eq!(h.updated_at(), Timestamp { micros: 9 });
    assert_eq!((h.id(), h.user_id(), h.serial()), (3, 4, "ABC123456"));
    assert_eq!(h.model(), g.model());
    let bad = UpdateGunInput {
        catalog_id: None,
        manufacturer: None,
        model: None,
        class: None,
        caliber: None,
        serial: Some("   ".into()),
        date_of_purchase: None,
        photo_url: None,
        notes: None,
    };
    match update_gun(g, bad, Timestamp { micros: 9 }) {
        Err(DomainError::Validation(ValidationError::Custom(m))) => {
            assert_eq!(m, "serial cannot be empty")
        }
        _ => panic!("expected a serial error"),
    }
}

#[test]
fn license_countdown() {
    let issued = ymd(2024, 1, 1);
    let expires = License::compute_expiry(issued, 1827);
    let l = License::register_at(
        1,
        Timestamp { micros: 0 },
        2,
        None,
        "AB-1".into(),
        "Org".into(),
        issued,
        expires,
        None,
        None,
        vec![],
    )
    .unwrap();
    assert_eq!(l.days_until_expiry(issued), 1827);
    assert!(!l.is_expired(expires));
    assert_eq!(l.days_until_expiry(expires), 0);
    assert!(l.is_expired(expires.plus_days(1)));
    assert_eq!(l.days_until_expiry(expires.plus_days(1)), -1);
}

// ------------------------------------------------------------- misc

#[test]
fn transactions_need_a_known_ammo_type() {
    let input = RecordTransactionInput {
        user_id: 1,
        ammo_type_id: 2,
        gun_id: Some(3),
        delta: -50,
        occurred_at: Timestamp { micros: 7 },
        note: None,
    };
    assert!(matches!(
        transaction_to_record(false, input.clone(), 9, Timestamp { micros: 8 }),
        Err(DomainError::AmmoLotNotFound)
    ));
    let t = transaction_to_record(true, input.clone(), 9, Timestamp { micros: 8 }).unwrap();
    assert_eq!((t.id, t.delta, t.gun_id, t.created_at), (9, -50, Some(3), Timestamp { micros: 8 }));
    let zero = RecordTransactionInput { delta: 0, ..input };
    assert!(matches!(
        transaction_to_record(true, zero, 9, Timestamp { micros: 8 }),
        Err(DomainError::Validation(ValidationError::Custom(_)))
    ));
}

#[test]
fn calculator_input_checks() {
    assert!(ComputeTrajectoryUseCase::check_input(true, true, true, 3).is_ok());
    match ComputeTrajectoryUseCase::check_input(true, false, false, 0) {
        Err(DomainError::Validation(ValidationError::Custom(m))) => assert_eq!(m, "bc_g1 must be positive"),
        _ => panic!("expected the ballistic coefficient check"),
    }
    match ComputeTrajectoryUseCase::check_input(true, true, true, 0) {
        Err(DomainError::Validation(ValidationError::Custom(m))) => {
            assert_eq!(m, "steps_m must contain at least one distance")
        }
        _ => panic!("expected the steps check"),
    }
    match ComputeClicksUseCase::check_input(false, false) {
        Err(DomainError::Validation(ValidationError::Custom(m))) => assert_eq!(m, "distance_m must be positive"),
        _ => panic!("expected the distance check"),
    }
    assert!(ComputeClicksUseCase::check_input(true, true).is_ok());
    assert!(ReZeroUseCase::check_input(true, false).is_err());
    assert!(ReZeroUseCase::check_input(true, true).is_ok());
}

#[test]
fn audit_entry_builders() {
    let e = AuditEntry::new("license.create")
        .user(5)
        .resource("license", id_text(SAMPLE_ID))
        .metadata("{\"number\":\"AB-1\"}".into());
    assert_eq!(e.action, "license.create");
    assert_eq!(e.user_id, Some(5));
    assert_eq!(e.resource_type.as_deref(), Some("license"));
    assert_eq!(e.resource_id.as_deref(), Some(SAMPLE_TEXT));
    assert_eq!(e.metadata.as_deref(), Some("{\"number\":\"AB-1\"}"));
    assert!(e.request_id.is_none() && e.ip_address.is_none());
}

#[test]
fn statuses_and_languages_read_back() {
    for st in [UserStatus::Pending, UserStatus::Verified, UserStatus::Blocked] {
        assert_eq!(UserStatus::parse(st.as_str()), Ok(st));
    }
    assert!(UserStatus::parse("Pending").is_err());
    for l in [Language::RU, Language::EN] {
        assert_eq!(Language::parse(l.as_str()), Ok(l));
    }
    assert_eq!(Language::parse("RUSSIAN"), Ok(Language::RU));
}

#[test]
fn tokens_with_encoded_signatures_read_back() {
    let t = Token {
        ident: SAMPLE_TEXT.into(),
        exp: "2030-01-01T00:00:00+00:00".into(),
        sign_b64u: encode_bytes(&[0xfb, 0xff, 0x00, 0x2e]),
    };
    let parsed: Token = t.to_string().parse().unwrap();
    assert_eq!(parsed, t);
}

#[test]
fn field_keys_decode_from_hex() {
    assert_eq!(field_key_from_hex("0aFf"), Ok(vec![0x0a, 0xff]));
    assert_eq!(field_key_from_hex(""), Ok(vec![]));
    assert_eq!(field_key_from_hex("abc"), Err(HexError::OddLength));
    assert_eq!(field_key_from_hex("0g12"), Err(HexError::InvalidHexCharacter { c: 'g', index: 1 }));
    assert_eq!(field_key_from_hex("zz1"), Err(HexError::OddLength));
    assert_eq!(
        field_key_from_hex("é"),
        Err(HexError::InvalidHexCharacter { c: '\u{c3}', index: 0 })
    );
}

#[test]
fn signatures_recompute_for_the_same_token() {
    let stored = signed_token_hash(&ReverseSigner, "raw-token");
    let presented = signed_token_hash(&ReverseSigner, "raw-token");
    assert_eq!(stored, presented);
    assert_ne!(stored, signed_token_hash(&ReverseSigner, "other-token"));
    assert_eq!(decode_bytes(&stored), Some(ReverseSigner.sign("raw-token")));
    assert!(ReverseSigner.verify("abc", b"cba"));
    assert!(!ReverseSigner.verify("abc", b"abc"));
}

#[test]
fn timestamps_move_by_seconds() {
    let t = Timestamp { micros: 5 };
    assert_eq!(t.plus_seconds(2), Some(Timestamp { micros: 2_000_005 }));
    assert_eq!(t.plus_seconds(-1), Some(Timestamp { micros: -999_995 }));
    assert_eq!(Timestamp { micros: i64::MAX - 10 }.plus_seconds(1), None);
    assert_eq!(t.whole_days_since(&Timestamp { micros: 5 + 2 * 86_400_000_000 }), -2);
}

#[test]
fn email_shape_edges() {
    use_email_cases();
}

fn use_email_cases() {
    use_case("a@b.cd", true);
    use_case("a@b.c", false);
    use_case("a.b+tag@c.d.ef", true);
    use_case("a@.b.cd", true);
    use_case("@b.cd", false);
    use_case("a@b.c1", false);
    use_case("a b@c.de", false);
}

fn use_case(text: &str, ok: bool) {
    assert_eq!(dryfire_backend::identity::Email::parse(text).is_ok(), ok, "{text}");
}
