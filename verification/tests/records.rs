use dryfire_backend::ammo::{
    check_summary_range, check_usage_range, transaction_audit_action, AmmoStock,
    AmmoStockResponse, BucketParam, BucketSize, CaliberSummary, CaliberSummaryResponse,
    DirectionParam, GunUsageResponse, GunUsageSummary, TimeBucketUsage, TransactionDirection,
    UsageBucketResponse,
};
use dryfire_backend::armory::{
    apply_catalog_update, cat_create_to_input, cat_update_to_input, create_to_input,
    update_to_input, CatalogEntry, CreateCatalogRequest, CreateGunRequest, Gun, GunResponse,
    GunSerialResponse, UpdateCatalogInput, UpdateCatalogRequest, UpdateGunRequest, WeaponClass,
};
use dryfire_backend::clock::{Date, Timestamp, MICROS_PER_DAY};
use dryfire_backend::errors::{DomainError, ValidationError};
use dryfire_backend::law::{
    apply_category_update, changes_since_params, default_region, parse_tags_csv,
    validate_search_query, LawCategory, LawTag, UpdateCategoryInput,
};
use dryfire_backend::license::{
    apply_license_type_update, check_date_range, expiry_from_type, license_from_input,
    plan_expiry, ExpiryPlan, License, LicenseResponse, LicenseType, RegisterLicenseInput,
    UpdateLicenseTypeInput,
};
use dryfire_backend::user::{Language, Region, User, UserStatus};

fn ymd(y: i32, m: u32, d: u32) -> Date {
    Date::from_ymd(y, m, d).unwrap()
}

fn custom_message(e: DomainError) -> String {
    match e {
        DomainError::Validation(ValidationError::Custom(m)) => m,
        other => panic!("expected a validation message, got {other:?}"),
    }
}

fn storage_type(validity_days: Option<i32>) -> LicenseType {
    LicenseType::new_at(
        11,
        Timestamp { micros: 0 },
        " storage ".into(),
        "Storage permit".into(),
        "RU".into(),
        validity_days,
        None,
    )
    .unwrap()
}

fn license_input(expires_at: Option<Date>, license_type_id: Option<u128>) -> RegisterLicenseInput {
    RegisterLicenseInput {
        user_id: 7,
        license_type_id,
        license_number: " AB-1 ".into(),
        issuer: "Org".into(),
        issued_at: ymd(2024, 1, 1),
        expires_at,
        notes: None,
        scan_url: None,
        gun_ids: vec![3, 4],
    }
}

// ------------------------------------------------------------ licenses

#[test]
fn expiry_is_given_or_taken_from_the_type() {
    assert!(matches!(
        plan_expiry(Some(ymd(2030, 1, 1)), Some(11)),
        Ok(ExpiryPlan::Given(d)) if d == ymd(2030, 1, 1)
    ));
    assert!(matches!(plan_expiry(None, Some(11)), Ok(ExpiryPlan::FromType(11))));
    assert_eq!(
        custom_message(plan_expiry(None, None).unwrap_err()),
        "expires_at is required when license_type_id is not set"
    );

    assert_eq!(expiry_from_type(ymd(2024, 1, 1), None), Err(DomainError::LicenseNotFound));
    let with_period = storage_type(Some(1827));
    assert_eq!(expiry_from_type(ymd(2024, 1, 1), Some(&with_period)), Ok(ymd(2029, 1, 1)));
    let manual = storage_type(None);
    assert_eq!(
        custom_message(expiry_from_type(ymd(2024, 1, 1), Some(&manual)).unwrap_err()),
        "license type `storage` has no default validity; expires_at must be supplied explicitly"
    );
}

#[test]
fn license_types_validate() {
    assert!(LicenseType::new("".into(), "N".into(), "RU".into(), None, None).is_err());
    assert!(LicenseType::new("c".into(), "N".into(), "RU".into(), Some(0), None).is_err());
    let t = storage_type(Some(365));
    assert_eq!(t.code, "storage");
    let mut t2 = t.clone();
    apply_license_type_update(
        &mut t2,
        UpdateLicenseTypeInput {
            code: None,
            name: Some("Renamed".into()),
            region: None,
            validity_days: Some(None),
            instructions: Some(Some("bring a photo".into())),
        },
        Timestamp { micros: 99 },
    );
    assert_eq!((t2.id, t2.code.as_str(), t2.name.as_str()), (t.id, "storage", "Renamed"));
    assert_eq!(t2.validity_days, None);
    assert_eq!(t2.instructions.as_deref(), Some("bring a photo"));
    assert_eq!((t2.created_at, t2.updated_at), (t.created_at, Timestamp { micros: 99 }));
}

#[test]
fn license_from_register_input() {
    let l = license_from_input(5, Timestamp { micros: 1 }, license_input(None, Some(11)), ymd(2029, 1, 1))
        .unwrap();
    assert_eq!((l.id(), l.user_id(), l.license_number()), (5, 7, "AB-1"));
    assert_eq!(l.expires_at(), ymd(2029, 1, 1));
    assert_eq!(l.gun_ids(), &[3, 4]);
    let e = license_from_input(5, Timestamp { micros: 1 }, license_input(None, None), ymd(2023, 1, 1))
        .unwrap_err();
    assert_eq!(custom_message(e), "expires_at must be on or after issued_at");
}

#[test]
fn license_response_reports_expiry() {
    let l = License::register_at(
        1,
        Timestamp { micros: 0 },
        2,
        None,
        "AB-1".into(),
        "Org".into(),
        ymd(2024, 1, 1),
        ymd(2024, 6, 1),
        Some("n".into()),
        None,
        vec![],
    )
    .unwrap();
    let r = LicenseResponse::from_license(&l, ymd(2024, 5, 30));
    assert!(!r.is_expired);
    assert_eq!(r.days_until_expiry, 2);
    assert_eq!(r.notes.as_deref(), Some("n"));
    let r = LicenseResponse::from_license(&l, ymd(2024, 6, 3));
    assert!(r.is_expired);
    assert_eq!(r.days_until_expiry, -2);
}

#[test]
fn deadline_ranges_are_ordered() {
    assert!(check_date_range(ymd(2024, 1, 1), ymd(2024, 1, 1)).is_ok());
    assert_eq!(
        custom_message(check_date_range(ymd(2024, 2, 1), ymd(2024, 1, 1)).unwrap_err()),
        "`to` must be on or after `from`"
    );
}

// ---------------------------------------------------------------- laws

#[test]
fn tag_lists_skip_blanks_and_unknown_tags() {
    assert_eq!(parse_tags_csv(None), vec![]);
    assert_eq!(
        parse_tags_csv(Some(" storage, carry ,Carry,magic,,self_defense")),
        vec![LawTag::Storage, LawTag::Carry, LawTag::SelfDefense]
    );
    assert_eq!(parse_tags_csv(Some("")), vec![]);
}

#[test]
fn search_queries_are_trimmed_and_bounded() {
    assert_eq!(validate_search_query("  хранение  ").unwrap(), "хранение");
    assert_eq!(custom_message(validate_search_query("   ").unwrap_err()), "search query cannot be empty");
    let long = "я".repeat(257);
    assert_eq!(
        custom_message(validate_search_query(&long).unwrap_err()),
        "search query too long (>512 chars)"
    );
    assert!(validate_search_query(&"я".repeat(256)).is_ok());
}

#[test]
fn changes_default_to_last_visit_and_home_region() {
    let created = Timestamp { micros: 10 };
    let user = User::rehydrate(
        1,
        "jdoe".into(),
        "J".into(),
        "D".into(),
        "j@d.com".into(),
        ymd(1990, 1, 1),
        Region::new("KZ").unwrap(),
        Language::RU,
        UserStatus::Verified,
        false,
        None,
        created,
        created,
    );
    let (since, region) = changes_since_params(None, None, &user);
    assert_eq!((since, region.as_str()), (created, "KZ"));
    let mut visited = user.clone();
    visited.touch_visit_at(Timestamp { micros: 50 });
    let (since, _) = changes_since_params(None, None, &visited);
    assert_eq!(since, Timestamp { micros: 50 });
    let (since, region) = changes_since_params(Some(Timestamp { micros: 3 }), Some("RU".into()), &visited);
    assert_eq!((since, region.as_str()), (Timestamp { micros: 3 }, "RU"));
    assert_eq!(default_region(), "RU");
}

#[test]
fn category_updates_replace_given_fields() {
    let mut c = LawCategory::new_at(4, Timestamp { micros: 0 }, " storage ".into(), "Хранение".into(), None, 1)
        .unwrap();
    assert_eq!(c.code, "storage");
    apply_category_update(
        &mut c,
        UpdateCategoryInput { code: None, name: None, parent_id: Some(Some(9)), sort_order: Some(5) },
        Timestamp { micros: 8 },
    );
    assert_eq!((c.id, c.code.as_str(), c.parent_id, c.sort_order), (4, "storage", Some(9), 5));
    assert_eq!(c.updated_at, Timestamp { micros: 8 });
}

// -------------------------------------------------------------- armory

#[test]
fn gun_requests_become_inputs() {
    let input = create_to_input(
        42,
        CreateGunRequest {
            catalog_id: Some(1),
            manufacturer: "Sako".into(),
            model: "TRG-22".into(),
            class: WeaponClass::Rifle,
            caliber: ".308".into(),
            serial: "ABC123".into(),
            date_of_purchase: ymd(2024, 6, 1),
            photo_url: None,
            notes: Some("n".into()),
        },
    );
    assert_eq!((input.user_id, input.catalog_id, input.serial.as_str()), (42, Some(1), "ABC123"));
    let upd = update_to_input(UpdateGunRequest {
        catalog_id: Some(None),
        manufacturer: None,
        model: Some("TRG-42".into()),
        class: None,
        caliber: None,
        serial: None,
        date_of_purchase: None,
        photo_url: Some(Some("u".into())),
        notes: None,
    });
    assert_eq!(upd.catalog_id, Some(None));
    assert_eq!(upd.model.as_deref(), Some("TRG-42"));
    assert_eq!(upd.photo_url, Some(Some("u".to_string())));
}

#[test]
fn catalog_entries() {
    assert!(CatalogEntry::new("".into(), "M".into(), WeaponClass::Rifle, ".308".into(), None, None, None, None)
        .is_err());
    let input = cat_create_to_input(CreateCatalogRequest {
        manufacturer: " Sako ".into(),
        model: "TRG".into(),
        class: WeaponClass::Rifle,
        caliber: ".308".into(),
        barrel_length_mm: Some(660),
        weight_g: None,
        capacity: Some(10),
        notes: None,
    });
    let mut e = CatalogEntry::new_at(
        2,
        Timestamp { micros: 0 },
        input.manufacturer,
        input.model,
        input.class,
        input.caliber,
        input.barrel_length_mm,
        input.weight_g,
        input.capacity,
        input.notes,
    )
    .unwrap();
    assert_eq!(e.manufacturer, "Sako");
    let upd: UpdateCatalogInput = cat_update_to_input(UpdateCatalogRequest {
        manufacturer: None,
        model: None,
        class: Some(WeaponClass::Smg),
        caliber: None,
        barrel_length_mm: Some(None),
        weight_g: Some(Some(3900)),
        capacity: None,
        notes: None,
    });
    apply_catalog_update(&mut e, upd, Timestamp { micros: 6 });
    assert_eq!((e.class, e.barrel_length_mm, e.weight_g, e.capacity), (WeaponClass::Smg, None, Some(3900), Some(10)));
    assert_eq!(e.updated_at, Timestamp { micros: 6 });
}

#[test]
fn gun_responses_hide_the_serial() {
    let g = Gun::register_at(
        3,
        Timestamp { micros: 1 },
        4,
        None,
        "Sako".into(),
        "TRG-22".into(),
        WeaponClass::Rifle,
        ".308".into(),
        "ABC123456".into(),
        ymd(2024, 6, 1),
        None,
        None,
    )
    .unwrap();
    let r = GunResponse::from_gun(&g);
    assert_eq!((r.id, r.class.as_str(), r.serial_last4.as_str()), (3, "rifle", "3456"));
    let s = GunSerialResponse::from_gun(&g);
    assert_eq!((s.id, s.serial.as_str()), (3, "ABC123456"));
}

// ---------------------------------------------------------------- ammo

#[test]
fn ammo_query_parameters() {
    assert_eq!(TransactionDirection::from(DirectionParam::Acquire), TransactionDirection::Acquire);
    assert_eq!(TransactionDirection::from(DirectionParam::Consume), TransactionDirection::Consume);
    assert_eq!(BucketSize::from(BucketParam::Week), BucketSize::Week);
    assert_eq!(BucketSize::Day.as_sql(), "day");
    assert_eq!(BucketSize::Week.as_sql(), "week");
    assert_eq!(BucketSize::Month.as_sql(), "month");
    assert_eq!(transaction_audit_action(5), "ammo.acquire");
    assert_eq!(transaction_audit_action(-5), "ammo.consume");
}

#[test]
fn ammo_ranges() {
    let t = |m: i64| Timestamp { micros: m };
    assert!(check_summary_range(None, Some(t(0))).is_ok());
    assert!(check_summary_range(Some(t(5)), Some(t(5))).is_ok());
    assert_eq!(
        custom_message(check_summary_range(Some(t(6)), Some(t(5))).unwrap_err()),
        "`to` must be on or after `from`"
    );
    let span = MICROS_PER_DAY * (366 * 5);
    assert!(check_usage_range(BucketSize::Day, t(0), t(span)).is_ok());
    assert_eq!(
        custom_message(check_usage_range(BucketSize::Day, t(0), t(span + MICROS_PER_DAY)).unwrap_err()),
        "day-bucket range too large; use week or month for >5 years"
    );
    assert!(check_usage_range(BucketSize::Month, t(0), t(span * 10)).is_ok());
    assert!(check_usage_range(BucketSize::Week, t(1), t(0)).is_err());
}

#[test]
fn ammo_responses() {
    let r = CaliberSummaryResponse::from(CaliberSummary {
        caliber: ".308".into(),
        acquired: 100,
        consumed: 40,
        net: 60,
    });
    assert_eq!((r.caliber.as_str(), r.acquired, r.consumed, r.net), (".308", 100, 40, 60));
    let b = UsageBucketResponse::from_usage(TimeBucketUsage { bucket: ymd(2024, 1, 1), acquired: 2, consumed: 3 });
    assert_eq!((b.bucket, b.acquired, b.consumed), (ymd(2024, 1, 1), 2, 3));
    let g = GunUsageResponse::from_usage(GunUsageSummary { gun_id: 9, rounds_fired: 12, last_used_at: None });
    assert_eq!((g.gun_id, g.rounds_fired, g.last_used_at), (9, 12, None));
    let s = AmmoStockResponse::from_stock(AmmoStock {
        user_id: 1,
        ammo_type_id: 2,
        quantity: 30,
        updated_at: Timestamp { micros: 4 },
    });
    assert_eq!((s.user_id, s.ammo_type_id, s.quantity), (1, 2, 30));
}

// -------------------------------------------------------------- errors

#[test]
fn missing_users_become_absent() {
    assert_eq!(DomainError::not_found_to_option(Ok::<i32, DomainError>(3)), Ok(Some(3)));
    assert_eq!(DomainError::not_found_to_option::<i32>(Err(DomainError::UserNotFound)), Ok(None));
    assert_eq!(
        DomainError::not_found_to_option::<i32>(Err(DomainError::GunNotFound)),
        Err(DomainError::GunNotFound)
    );
}
