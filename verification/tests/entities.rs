use dryfire_backend::ammo::{validate_ammo_type, AmmoTransaction, BulletType};
use dryfire_backend::armory::{Gun, WeaponClass};
use dryfire_backend::clock::{new_id, Date, Timestamp};
use dryfire_backend::errors::{DomainError, ValidationError};
use dryfire_backend::identity::{Email, Login, Password, Token};
use dryfire_backend::law::{Law, LawCategory, LawTag};
use dryfire_backend::license::License;
use dryfire_backend::user::{Language, Region, User};

fn ymd(y: i32, m: u32, d: u32) -> Date {
    Date::from_ymd(y, m, d).unwrap()
}

// ---------------------------------------------------------------- ammo

#[test]
fn ammo_type_validates_required_fields() {
    let powder: Option<f64> = None;
    let bullet: Option<f64> = Some(175.0);
    let e = validate_ammo_type(
        "",
        "Match King",
        ".308",
        powder.map_or(false, |p| p <= 0.0),
        bullet.map_or(false, |b| b <= 0.0),
    )
    .unwrap_err();
    assert!(matches!(e, ValidationError::Custom(_)));
}

#[test]
fn ammo_type_rejects_nonpositive_weights() {
    let powder: Option<f64> = Some(0.0);
    let bullet: Option<f64> = None;
    let e = validate_ammo_type(
        "Hornady",
        "BTHP",
        ".308",
        powder.map_or(false, |p| p <= 0.0),
        bullet.map_or(false, |b| b <= 0.0),
    )
    .unwrap_err();
    assert!(matches!(e, ValidationError::Custom(_)));
}

#[test]
fn tx_rejects_zero_delta() {
    let e = AmmoTransaction::new(new_id(), new_id(), None, 0, Timestamp::now(), None).unwrap_err();
    assert!(matches!(e, ValidationError::Custom(_)));
}

#[test]
fn tx_rejects_absurd_delta() {
    let e = AmmoTransaction::new(new_id(), new_id(), None, 10_000_000, Timestamp::now(), None)
        .unwrap_err();
    assert!(matches!(e, ValidationError::Custom(_)));
}

#[test]
fn bullet_type_round_trips() {
    for b in [
        BulletType::Fmj,
        BulletType::Jhp,
        BulletType::Sp,
        BulletType::Lrn,
        BulletType::Wad,
        BulletType::Match,
        BulletType::Slug,
        BulletType::Buckshot,
        BulletType::Birdshot,
        BulletType::Other,
    ] {
        let s = b.as_str();
        let back: BulletType = s.parse().unwrap();
        assert_eq!(b, back);
    }
    assert!("plasma".parse::<BulletType>().is_err());
}

// -------------------------------------------------------------- armory

fn sample_gun() -> Gun {
    Gun::register(
        new_id(),
        None,
        "Sako".into(),
        "TRG-22".into(),
        WeaponClass::Rifle,
        ".308 Win".into(),
        "ABC123456".to_string(),
        ymd(2024, 6, 1),
        None,
        None,
    )
    .unwrap()
}

#[test]
fn register_validates_required() {
    let e = match Gun::register(
        new_id(),
        None,
        "".into(),
        "TRG-22".into(),
        WeaponClass::Rifle,
        ".308 Win".into(),
        "X".to_string(),
        ymd(2024, 6, 1),
        None,
        None,
    ) {
        Err(e) => e,
        Ok(_) => panic!("a blank manufacturer was accepted"),
    };
    assert!(matches!(e, ValidationError::Custom(_)));
}

#[test]
fn serial_last4_basic() {
    let g = sample_gun();
    assert_eq!(g.serial_last4(), "3456");
}

#[test]
fn serial_last4_short_serial() {
    let g = Gun::register(
        new_id(),
        None,
        "X".into(),
        "Y".into(),
        WeaponClass::Pistol,
        ".22 LR".into(),
        "AB".to_string(),
        ymd(2024, 6, 1),
        None,
        None,
    )
    .unwrap();
    assert_eq!(g.serial_last4(), "AB");
}

#[test]
fn weapon_class_round_trips() {
    for c in [
        WeaponClass::Rifle,
        WeaponClass::Shotgun,
        WeaponClass::Pistol,
        WeaponClass::Revolver,
        WeaponClass::Smg,
        WeaponClass::Other,
    ] {
        let s = c.as_str();
        let back: WeaponClass = s.parse().unwrap();
        assert_eq!(c, back);
    }
    assert!("crossbow".parse::<WeaponClass>().is_err());
}

#[test]
fn apply_update_partial() {
    let mut g = sample_gun();
    let before = g.updated_at();
    while Timestamp::now().micros <= before.micros {}
    g.apply_update(None, None, Some("TRG-42".into()), None, None, None, None, None).unwrap();
    assert_eq!(g.model(), "TRG-42");
    assert!(g.updated_at().micros > before.micros);
    // Other fields untouched.
    assert_eq!(g.manufacturer(), "Sako");
}

#[test]
fn apply_update_rejects_empty_string() {
    let mut g = sample_gun();
    let e = g.apply_update(None, Some("".into()), None, None, None, None, None, None).unwrap_err();
    assert!(matches!(e, ValidationError::Custom(_)));
}

// ----------------------------------------------------------------- law

#[test]
fn law_tag_roundtrip() {
    for t in [
        LawTag::Transport,
        LawTag::Carry,
        LawTag::Storage,
        LawTag::Hunting,
        LawTag::SelfDefense,
        LawTag::Sport,
        LawTag::License,
        LawTag::Inheritance,
        LawTag::Inspection,
        LawTag::Penalty,
        LawTag::Other,
    ] {
        let s = t.as_str();
        let back: LawTag = s.parse().unwrap();
        assert_eq!(t, back);
    }
    assert!("magic".parse::<LawTag>().is_err());
}

#[test]
fn law_new_validates_required() {
    let e = Law::new(
        "".into(),
        "Title".into(),
        None,
        "Body".into(),
        "RU".into(),
        None,
        vec![],
        ymd(2024, 1, 1),
    )
    .unwrap_err();
    assert!(matches!(e, ValidationError::Custom(_)));
}

#[test]
fn law_new_starts_at_version_1() {
    let l = Law::new(
        "fz-150".into(),
        "Об оружии".into(),
        None,
        "...".into(),
        "RU".into(),
        None,
        vec![LawTag::Storage, LawTag::Carry],
        ymd(1996, 12, 13),
    )
    .unwrap();
    assert_eq!(l.current_version, 1);
    assert_eq!(l.tags.len(), 2);
}

#[test]
fn category_validates() {
    assert!(LawCategory::new("storage".into(), "Хранение".into(), None, 1).is_ok());
    assert!(LawCategory::new("".into(), "Name".into(), None, 0).is_err());
}

// ------------------------------------------------------------- license

fn fake_license(expires: Date) -> License {
    License::register(
        new_id(),
        None,
        "AB-12345".into(),
        "МВД РФ".into(),
        ymd(2024, 1, 1),
        expires,
        None,
        None,
        vec![],
    )
    .unwrap()
}

#[test]
fn expires_at_must_be_after_issued_at() {
    let e = License::register(
        new_id(),
        None,
        "AB-1".into(),
        "Org".into(),
        ymd(2024, 6, 1),
        ymd(2024, 5, 1),
        None,
        None,
        vec![],
    )
    .unwrap_err();
    assert!(matches!(e, ValidationError::Custom(_)));
}

#[test]
fn days_until_expiry() {
    let l = fake_license(ymd(2026, 6, 1));
    assert_eq!(l.days_until_expiry(ymd(2026, 5, 1)), 31);
    assert_eq!(l.days_until_expiry(ymd(2026, 7, 1)), -30);
}

#[test]
fn compute_expiry_adds_days() {
    let issued = ymd(2024, 1, 1);
    let expiry = License::compute_expiry(issued, 1827); // 5 years
    assert_eq!(expiry, ymd(2029, 1, 1));
}

#[test]
fn is_expired_check() {
    let l = fake_license(ymd(2024, 6, 1));
    assert!(l.is_expired(ymd(2024, 6, 2)));
    assert!(!l.is_expired(ymd(2024, 6, 1)));
}

#[test]
fn apply_update_validates_date_ordering() {
    let mut l = fake_license(ymd(2026, 1, 1));
    let e = l
        .apply_update(
            None,
            None,
            None,
            Some(ymd(2027, 1, 1)), // issued moves after expires
            None,
            None,
            None,
            None,
        )
        .unwrap_err();
    assert!(matches!(e, ValidationError::Custom(_)));
}

// ---------------------------------------------------------------- user

fn new_adult() -> Result<User, DomainError> {
    User::register(
        "jdoe".into(),
        "John".into(),
        "Doe".into(),
        "j@d.com".into(),
        ymd(1990, 1, 1),
        Region::new("RU").unwrap(),
        Language::RU,
    )
}

#[test]
fn register_adult_ok() {
    assert!(new_adult().is_ok());
}

#[test]
fn register_minor_rejected() {
    let today = Date::today();
    let dob = ymd(today.ymd().0 - 10, 1, 1);
    let err = User::register(
        "kid".into(),
        "K".into(),
        "K".into(),
        "k@k.com".into(),
        dob,
        Region::new("RU").unwrap(),
        Language::RU,
    )
    .unwrap_err();
    assert!(matches!(err, DomainError::Underage { .. }));
}

#[test]
fn mark_verified_transitions() {
    let mut u = new_adult().unwrap();
    assert!(!u.is_verified());
    u.mark_verified().unwrap();
    assert!(u.is_verified());
    assert!(matches!(u.mark_verified(), Err(DomainError::AlreadyVerified)));
}

#[test]
fn region_validation() {
    assert!(Region::new("RU").is_ok());
    assert!(Region::new("ru").is_ok());
    assert!(Region::new("RUS").is_err());
    assert!(Region::new("R1").is_err());
}

// ------------------------------------------------------------ identity

#[test]
fn password_policy() {
    assert!(Password::parse("Aa1!aaaa").is_ok());
    assert!(matches!(Password::parse("short"), Err(ValidationError::PasswordTooShort)));
    assert!(matches!(Password::parse("nouppercase1!"), Err(ValidationError::PasswordNoUppercase)));
    assert!(matches!(Password::parse("NOLOWERCASE1!"), Err(ValidationError::PasswordNoLowercase)));
    assert!(matches!(Password::parse("NoSpecials1"), Err(ValidationError::PasswordNoSpecial)));
    assert!(matches!(Password::parse("NoDigits!!"), Err(ValidationError::PasswordNoDigit)));
}

#[test]
fn email_normalizes_and_validates() {
    let e = Email::parse("  Foo@Bar.COM ").unwrap();
    assert_eq!(e.as_str(), "foo@bar.com");
    assert!(Email::parse("not-an-email").is_err());
    assert!(Email::parse("a@b").is_err());
}

#[test]
fn login_policy() {
    assert!(Login::parse("john_doe1").is_ok());
    assert!(Login::parse("ab").is_err());
    assert!(Login::parse("has space").is_err());
    assert!(Login::parse("has-dash").is_err());
}

#[test]
fn token_roundtrip() {
    let t = Token {
        ident: "abc".into(),
        exp: "2026-05-17T15:30:00+00:00".into(),
        sign_b64u: "sig".into(),
    };
    let s = t.to_string();
    let parsed: Token = s.parse().unwrap();
    assert_eq!(parsed, t);
}
