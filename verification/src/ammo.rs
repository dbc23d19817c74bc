//! Ammo: the bullet and projectile vocabularies, the ledger of stock
//! movements ([`AmmoTransaction`]) and the on-hand quantity per ammo type
//! ([`AmmoStock`]), with the checks the ammo use cases make.
//!
//! The ammo-type catalog entry itself carries grain weights as floats and
//! lives outside this library; its text fields are checked here by
//! [`validate_ammo_type`].

use vstd::prelude::*;
use vstd::std_specs::convert::FromSpec;
use crate::clock::{Date, Timestamp, MICROS_PER_DAY};
use crate::errors::{fails, fails_v, is_custom, is_custom_validation, DomainError, ValidationError};
use crate::text::{ascii_lower_seq, concat3, eq_str, is_blank, owned, to_ascii_lowercase, trim, trim_seq};

verus! {

// ------------------------------------------------------------------
// BulletType
// ------------------------------------------------------------------

#[derive(Debug, Clone, Copy, PartialEq, Eq, Structural)]
pub enum BulletType {
    Fmj,
    Jhp,
    Sp,
    Lrn,
    Wad,
    Match,
    Slug,
    Buckshot,
    Birdshot,
    Other,
}

pub open spec fn bullet_type_code(b: BulletType) -> Seq<char> {
    match b {
        BulletType::Fmj => "fmj"@,
        BulletType::Jhp => "jhp"@,
        BulletType::Sp => "sp"@,
        BulletType::Lrn => "lrn"@,
        BulletType::Wad => "wad"@,
        BulletType::Match => "match"@,
        BulletType::Slug => "slug"@,
        BulletType::Buckshot => "buckshot"@,
        BulletType::Birdshot => "birdshot"@,
        BulletType::Other => "other"@,
    }
}

/// The bullet type named by an (already lower-cased) code.
pub open spec fn bullet_type_of(s: Seq<char>) -> Option<BulletType> {
    if s == "fmj"@ {
        Some(BulletType::Fmj)
    } else if s == "jhp"@ {
        Some(BulletType::Jhp)
    } else if s == "sp"@ {
        Some(BulletType::Sp)
    } else if s == "lrn"@ {
        Some(BulletType::Lrn)
    } else if s == "wad"@ {
        Some(BulletType::Wad)
    } else if s == "match"@ {
        Some(BulletType::Match)
    } else if s == "slug"@ {
        Some(BulletType::Slug)
    } else if s == "buckshot"@ {
        Some(BulletType::Buckshot)
    } else if s == "birdshot"@ {
        Some(BulletType::Birdshot)
    } else if s == "other"@ {
        Some(BulletType::Other)
    } else {
        None
    }
}

impl BulletType {
    pub fn as_str(&self) -> (r: &'static str)
        ensures
            r@ == bullet_type_code(*self),
    {
        match self {
            BulletType::Fmj => "fmj",
            BulletType::Jhp => "jhp",
            BulletType::Sp => "sp",
            BulletType::Lrn => "lrn",
            BulletType::Wad => "wad",
            BulletType::Match => "match",
            BulletType::Slug => "slug",
            BulletType::Buckshot => "buckshot",
            BulletType::Birdshot => "birdshot",
            BulletType::Other => "other",
        }
    }

    /// Parses a bullet type code, case-insensitively for ASCII.
    pub fn parse(s: &str) -> (r: Result<BulletType, ValidationError>)
        ensures
            r matches Ok(b) ==> bullet_type_of(ascii_lower_seq(s@)) == Some(b),
            r matches Err(e) ==> bullet_type_of(ascii_lower_seq(s@)) is None && is_custom_validation(
                e,
                "unknown bullet_type `"@ + ascii_lower_seq(s@) + "`"@,
            ),
            r is Ok <==> bullet_type_of(ascii_lower_seq(s@)) is Some,
    {
        let lower = to_ascii_lowercase(s);
        let l = lower.as_str();
        if eq_str(l, "fmj") {
            Ok(BulletType::Fmj)
        } else if eq_str(l, "jhp") {
            Ok(BulletType::Jhp)
        } else if eq_str(l, "sp") {
            Ok(BulletType::Sp)
        } else if eq_str(l, "lrn") {
            Ok(BulletType::Lrn)
        } else if eq_str(l, "wad") {
            Ok(BulletType::Wad)
        } else if eq_str(l, "match") {
            Ok(BulletType::Match)
        } else if eq_str(l, "slug") {
            Ok(BulletType::Slug)
        } else if eq_str(l, "buckshot") {
            Ok(BulletType::Buckshot)
        } else if eq_str(l, "birdshot") {
            Ok(BulletType::Birdshot)
        } else if eq_str(l, "other") {
            Ok(BulletType::Other)
        } else {
            Err(ValidationError::Custom(concat3("unknown bullet_type `", l, "`")))
        }
    }
}

impl std::str::FromStr for BulletType {
    type Err = ValidationError;

    fn from_str(s: &str) -> (r: Result<Self, Self::Err>)
        ensures
            r matches Ok(b) ==> bullet_type_of(ascii_lower_seq(s@)) == Some(b),
            r matches Err(e) ==> bullet_type_of(ascii_lower_seq(s@)) is None && is_custom_validation(
                e,
                "unknown bullet_type `"@ + ascii_lower_seq(s@) + "`"@,
            ),
            r is Ok <==> bullet_type_of(ascii_lower_seq(s@)) is Some,
    {
        BulletType::parse(s)
    }
}

/// Every bullet type parses back from its code.
pub proof fn lemma_bullet_type_roundtrip(b: BulletType)
    ensures
        bullet_type_of(ascii_lower_seq(bullet_type_code(b))) == Some(b),
{
    reveal_strlit("fmj");
    reveal_strlit("jhp");
    reveal_strlit("sp");
    reveal_strlit("lrn");
    reveal_strlit("wad");
    reveal_strlit("match");
    reveal_strlit("slug");
    reveal_strlit("buckshot");
    reveal_strlit("birdshot");
    reveal_strlit("other");
    let c = bullet_type_code(b);
    assert(ascii_lower_seq(c) =~= c);
    match b {
        BulletType::Fmj => {},
        BulletType::Jhp => {
            assert(c[0] != "fmj"@[0]);
        },
        BulletType::Sp => {
            assert(c[0] != "fmj"@[0] && c[0] != "jhp"@[0]);
        },
        BulletType::Lrn => {
            assert(c[0] != "fmj"@[0] && c[0] != "jhp"@[0] && c[0] != "sp"@[0]);
        },
        BulletType::Wad => {
            assert(c.len() != "sp"@.len() && c[0] != "fmj"@[0] && c[0] != "jhp"@[0] && c[0]
                != "lrn"@[0]);
        },
        BulletType::Match => {
            assert(c.len() != "fmj"@.len() && c.len() != "sp"@.len());
        },
        BulletType::Slug => {
            assert(c.len() != "fmj"@.len() && c.len() != "sp"@.len() && c.len() != "match"@.len());
        },
        BulletType::Buckshot => {
            assert(c.len() != "fmj"@.len() && c.len() != "sp"@.len() && c.len() != "match"@.len()
                && c.len() != "slug"@.len());
        },
        BulletType::Birdshot => {
            assert(c.len() != "fmj"@.len() && c.len() != "sp"@.len() && c.len() != "match"@.len()
                && c.len() != "slug"@.len() && c[1] != "buckshot"@[1]);
        },
        BulletType::Other => {
            assert(c.len() != "fmj"@.len() && c.len() != "sp"@.len() && c.len() != "slug"@.len()
                && c.len() != "buckshot"@.len() && c[0] != "match"@[0]);
        },
    }
}

// ------------------------------------------------------------------
// ProjectileType
// ------------------------------------------------------------------

#[derive(Debug, Clone, Copy, PartialEq, Eq, Structural)]
pub enum ProjectileType {
    Centerfire,
    Rimfire,
    Shotshell,
    Blank,
    Other,
}

pub open spec fn projectile_type_code(p: ProjectileType) -> Seq<char> {
    match p {
        ProjectileType::Centerfire => "centerfire"@,
        ProjectileType::Rimfire => "rimfire"@,
        ProjectileType::Shotshell => "shotshell"@,
        ProjectileType::Blank => "blank"@,
        ProjectileType::Other => "other"@,
    }
}

pub open spec fn projectile_type_of(s: Seq<char>) -> Option<ProjectileType> {
    if s == "centerfire"@ {
        Some(ProjectileType::Centerfire)
    } else if s == "rimfire"@ {
        Some(ProjectileType::Rimfire)
    } else if s == "shotshell"@ {
        Some(ProjectileType::Shotshell)
    } else if s == "blank"@ {
        Some(ProjectileType::Blank)
    } else if s == "other"@ {
        Some(ProjectileType::Other)
    } else {
        None
    }
}

impl ProjectileType {
    pub fn as_str(&self) -> (r: &'static str)
        ensures
            r@ == projectile_type_code(*self),
    {
        match self {
            ProjectileType::Centerfire => "centerfire",
            ProjectileType::Rimfire => "rimfire",
            ProjectileType::Shotshell => "shotshell",
            ProjectileType::Blank => "blank",
            ProjectileType::Other => "other",
        }
    }

    /// Parses a projectile type code, case-insensitively for ASCII.
    pub fn parse(s: &str) -> (r: Result<ProjectileType, ValidationError>)
        ensures
            r matches Ok(p) ==> projectile_type_of(ascii_lower_seq(s@)) == Some(p),
            r matches Err(e) ==> projectile_type_of(ascii_lower_seq(s@)) is None
                && is_custom_validation(e, "unknown projectile_type `"@ + ascii_lower_seq(s@) + "`"@),
            r is Ok <==> projectile_type_of(ascii_lower_seq(s@)) is Some,
    {
        let lower = to_ascii_lowercase(s);
        let l = lower.as_str();
        if eq_str(l, "centerfire") {
            Ok(ProjectileType::Centerfire)
        } else if eq_str(l, "rimfire") {
            Ok(ProjectileType::Rimfire)
        } else if eq_str(l, "shotshell") {
            Ok(ProjectileType::Shotshell)
        } else if eq_str(l, "blank") {
            Ok(ProjectileType::Blank)
        } else if eq_str(l, "other") {
            Ok(ProjectileType::Other)
        } else {
            Err(ValidationError::Custom(concat3("unknown projectile_type `", l, "`")))
        }
    }
}

impl std::str::FromStr for ProjectileType {
    type Err = ValidationError;

    fn from_str(s: &str) -> (r: Result<Self, Self::Err>)
        ensures
            r matches Ok(p) ==> projectile_type_of(ascii_lower_seq(s@)) == Some(p),
            r matches Err(e) ==> projectile_type_of(ascii_lower_seq(s@)) is None
                && is_custom_validation(e, "unknown projectile_type `"@ + ascii_lower_seq(s@) + "`"@),
            r is Ok <==> projectile_type_of(ascii_lower_seq(s@)) is Some,
    {
        ProjectileType::parse(s)
    }
}

/// Every projectile type parses back from its code.
pub proof fn lemma_projectile_type_roundtrip(p: ProjectileType)
    ensures
        projectile_type_of(ascii_lower_seq(projectile_type_code(p))) == Some(p),
{
    reveal_strlit("centerfire");
    reveal_strlit("rimfire");
    reveal_strlit("shotshell");
    reveal_strlit("blank");
    reveal_strlit("other");
    let c = projectile_type_code(p);
    assert(ascii_lower_seq(c) =~= c);
    match p {
        ProjectileType::Centerfire => {},
        ProjectileType::Rimfire => {
            assert(c.len() != "centerfire"@.len());
        },
        ProjectileType::Shotshell => {
            assert(c.len() != "centerfire"@.len() && c.len() != "rimfire"@.len());
        },
        ProjectileType::Blank => {
            assert(c.len() != "centerfire"@.len() && c.len() != "rimfire"@.len() && c.len()
                != "shotshell"@.len());
        },
        ProjectileType::Other => {
            assert(c.len() != "centerfire"@.len() && c.len() != "rimfire"@.len() && c.len()
                != "shotshell"@.len() && c[0] != "blank"@[0]);
        },
    }
}

// ------------------------------------------------------------------
// Ammo type text fields
// ------------------------------------------------------------------

/// The text fields of an ammo type, trimmed.
#[derive(Debug, Clone)]
pub struct AmmoTypeNames {
    pub manufacturer: String,
    pub name: String,
    pub caliber: String,
}

/// The checks of a new ammo type, in order: manufacturer, name and
/// caliber must not be blank; then a given powder charge must be positive;
/// then a given bullet weight must be positive. The two weights are floats,
/// so the caller says whether each one was given and not positive.
pub fn validate_ammo_type(
    manufacturer: &str,
    name: &str,
    caliber: &str,
    powder_charge_not_positive: bool,
    bullet_weight_not_positive: bool,
) -> (r: Result<AmmoTypeNames, ValidationError>)
    ensures
        (is_blank(manufacturer@) || is_blank(name@) || is_blank(caliber@)) ==> fails_v(r, "manufacturer, name, caliber are required"@),
        !(is_blank(manufacturer@) || is_blank(name@) || is_blank(caliber@))
            && powder_charge_not_positive ==> fails_v(r, "powder_charge_grain must be positive"@,
        ),
        !(is_blank(manufacturer@) || is_blank(name@) || is_blank(caliber@))
            && !powder_charge_not_positive && bullet_weight_not_positive ==> fails_v(r, "bullet_weight_grain must be positive"@),
        r is Ok <==> !(is_blank(manufacturer@) || is_blank(name@) || is_blank(caliber@))
            && !powder_charge_not_positive && !bullet_weight_not_positive,
        r matches Ok(n) ==> n.manufacturer@ == trim_seq(manufacturer@) && n.name@ == trim_seq(
            name@,
        ) && n.caliber@ == trim_seq(caliber@),
{
    let m = trim(manufacturer);
    let n = trim(name);
    let c = trim(caliber);
    if m.as_str().is_empty() || n.as_str().is_empty() || c.as_str().is_empty() {
        return Err(ValidationError::custom("manufacturer, name, caliber are required"));
    }
    if powder_charge_not_positive {
        return Err(ValidationError::custom("powder_charge_grain must be positive"));
    }
    if bullet_weight_not_positive {
        return Err(ValidationError::custom("bullet_weight_grain must be positive"));
    }
    Ok(AmmoTypeNames { manufacturer: m, name: n, caliber: c })
}

// ------------------------------------------------------------------
// Stock and transactions
// ------------------------------------------------------------------

/// Current on-hand quantity for a (user, ammo type) pair.
#[derive(Debug, Clone, Copy, PartialEq, Eq, Structural)]
pub struct AmmoStock {
    pub user_id: u128,
    pub ammo_type_id: u128,
    pub quantity: i32,
    pub updated_at: Timestamp,
}

/// An immutable ledger row. Positive `delta` = acquired, negative =
/// consumed.
#[derive(Debug, Clone)]
pub struct AmmoTransaction {
    pub id: u128,
    pub user_id: u128,
    pub ammo_type_id: u128,
    pub gun_id: Option<u128>,
    pub delta: i32,
    pub occurred_at: Timestamp,
    pub note: Option<String>,
    pub created_at: Timestamp,
}

/// The largest quantity one transaction may move.
pub const MAX_TRANSACTION_DELTA: i32 = 1_000_000;

impl AmmoTransaction {
    /// A ledger row with the given id, created at `now`. The delta must
    /// be non-zero and at most [`MAX_TRANSACTION_DELTA`] in magnitude.
    pub fn new_at(
        id: u128,
        now: Timestamp,
        user_id: u128,
        ammo_type_id: u128,
        gun_id: Option<u128>,
        delta: i32,
        occurred_at: Timestamp,
        note: Option<String>,
    ) -> (r: Result<AmmoTransaction, ValidationError>)
        ensures
            delta == 0 ==> fails_v(r, "delta must be non-zero"@),
            delta != 0 && !(-MAX_TRANSACTION_DELTA <= delta <= MAX_TRANSACTION_DELTA) ==> fails_v(r, "delta out of adequate range (|delta| > 1,000,000)"@),
            r is Ok <==> delta != 0 && -MAX_TRANSACTION_DELTA <= delta <= MAX_TRANSACTION_DELTA,
            r matches Ok(t) ==> t.id == id && t.user_id == user_id && t.ammo_type_id
                == ammo_type_id && t.gun_id == gun_id && t.delta == delta && t.occurred_at
                == occurred_at && t.note == note && t.created_at == now,
    {
        if delta == 0 {
            return Err(ValidationError::custom("delta must be non-zero"));
        }
        if !(-MAX_TRANSACTION_DELTA <= delta && delta <= MAX_TRANSACTION_DELTA) {
            return Err(ValidationError::custom("delta out of adequate range (|delta| > 1,000,000)"));
        }
        Ok(AmmoTransaction {
            id,
            user_id,
            ammo_type_id,
            gun_id,
            delta,
            occurred_at,
            note,
            created_at: now,
        })
    }

    /// A ledger row with a fresh id, created now; see
    /// [`AmmoTransaction::new_at`].
    pub fn new(
        user_id: u128,
        ammo_type_id: u128,
        gun_id: Option<u128>,
        delta: i32,
        occurred_at: Timestamp,
        note: Option<String>,
    ) -> (r: Result<AmmoTransaction, ValidationError>)
        ensures
            delta == 0 ==> fails_v(r, "delta must be non-zero"@),
            delta != 0 && !(-MAX_TRANSACTION_DELTA <= delta <= MAX_TRANSACTION_DELTA) ==> fails_v(r, "delta out of adequate range (|delta| > 1,000,000)"@),
            r is Ok <==> delta != 0 && -MAX_TRANSACTION_DELTA <= delta <= MAX_TRANSACTION_DELTA,
            r matches Ok(t) ==> t.user_id == user_id && t.ammo_type_id == ammo_type_id && t.gun_id
                == gun_id && t.delta == delta && t.occurred_at == occurred_at && t.note == note,
    {
        let id = crate::clock::new_id();
        let now = Timestamp::now();
        AmmoTransaction::new_at(id, now, user_id, ammo_type_id, gun_id, delta, occurred_at, note)
    }
}

/// The audit action of a recorded transaction: acquiring for a positive
/// delta, consuming otherwise.
pub fn transaction_audit_action(delta: i32) -> (r: &'static str)
    ensures
        delta > 0 ==> r@ == "ammo.acquire"@,
        delta <= 0 ==> r@ == "ammo.consume"@,
{
    if delta > 0 {
        "ammo.acquire"
    } else {
        "ammo.consume"
    }
}

/// What a recorded transaction carries.
#[derive(Debug, Clone)]
pub struct RecordTransactionInput {
    pub user_id: u128,
    pub ammo_type_id: u128,
    pub gun_id: Option<u128>,
    pub delta: i32,
    pub occurred_at: Timestamp,
    pub note: Option<String>,
}

/// The ledger row of a transaction to record, once the ammo type has
/// been looked up: an unknown type is `AmmoLotNotFound`; otherwise the
/// row is built with the given id at `now` (see
/// [`AmmoTransaction::new_at`]).
pub fn transaction_to_record(
    type_exists: bool,
    input: RecordTransactionInput,
    id: u128,
    now: Timestamp,
) -> (r: Result<AmmoTransaction, DomainError>)
    ensures
        !type_exists ==> r == Err::<AmmoTransaction, DomainError>(DomainError::AmmoLotNotFound),
        type_exists && input.delta == 0 ==> fails(r, "delta must be non-zero"@),
        type_exists && input.delta != 0 && !(-MAX_TRANSACTION_DELTA <= input.delta
            <= MAX_TRANSACTION_DELTA) ==> fails(
            r,
            "delta out of adequate range (|delta| > 1,000,000)"@,
        ),
        r is Ok <==> type_exists && input.delta != 0 && -MAX_TRANSACTION_DELTA <= input.delta
            <= MAX_TRANSACTION_DELTA,
        r matches Ok(t) ==> t.id == id && t.user_id == input.user_id && t.ammo_type_id
            == input.ammo_type_id && t.gun_id == input.gun_id && t.delta == input.delta
            && t.occurred_at == input.occurred_at && t.note == input.note && t.created_at == now,
{
    if !type_exists {
        return Err(DomainError::AmmoLotNotFound);
    }
    match AmmoTransaction::new_at(
        id,
        now,
        input.user_id,
        input.ammo_type_id,
        input.gun_id,
        input.delta,
        input.occurred_at,
        input.note,
    ) {
        Ok(t) => Ok(t),
        Err(v) => Err(DomainError::Validation(v)),
    }
}

/// The message of a reversed range.
pub open spec fn reversed_range_message() -> Seq<char> {
    "`to` must be on or after `from`"@
}

/// The caliber summary's range check: when both ends are given, `to`
/// must not be before `from`.
pub fn check_summary_range(from: Option<Timestamp>, to: Option<Timestamp>) -> (r: Result<
    (),
    DomainError,
>)
    ensures
        r is Err <==> (from is Some && to is Some && to->0.micros < from->0.micros),
        r matches Err(e) ==> is_custom(e, reversed_range_message()),
{
    match (from, to) {
        (Some(f), Some(t)) => {
            if t.is_before(&f) {
                return Err(DomainError::custom("`to` must be on or after `from`"));
            }
            Ok(())
        },
        _ => Ok(()),
    }
}

/// Day buckets may span at most this many whole days.
pub const MAX_DAY_BUCKET_SPAN_DAYS: i64 = 366 * 5;

/// The usage-over-time range check: `to` must not be before `from`, and
/// day buckets may span at most [`MAX_DAY_BUCKET_SPAN_DAYS`] whole days.
pub fn check_usage_range(bucket: BucketSize, from: Timestamp, to: Timestamp) -> (r: Result<
    (),
    DomainError,
>)
    ensures
        to.micros < from.micros ==> fails(r, reversed_range_message()),
        to.micros >= from.micros && bucket == BucketSize::Day && (to.micros - from.micros) / (
        MICROS_PER_DAY as int) > MAX_DAY_BUCKET_SPAN_DAYS ==> fails(r, "day-bucket range too large; use week or month for >5 years"@,
        ),
        r is Ok <==> to.micros >= from.micros && !(bucket == BucketSize::Day && (to.micros
            - from.micros) / (MICROS_PER_DAY as int) > MAX_DAY_BUCKET_SPAN_DAYS),
{
    if to.is_before(&from) {
        return Err(DomainError::custom("`to` must be on or after `from`"));
    }
    let span_days = to.whole_days_since(&from);
    if bucket == BucketSize::Day && span_days > MAX_DAY_BUCKET_SPAN_DAYS {
        return Err(DomainError::custom("day-bucket range too large; use week or month for >5 years"));
    }
    Ok(())
}

// ------------------------------------------------------------------
// Query shapes and aggregates
// ------------------------------------------------------------------

#[derive(Debug, Clone, Default)]
pub struct StockFilter {
    pub ammo_type_id: Option<u128>,
    pub caliber: Option<String>,
    pub include_zero: bool,
}

#[derive(Debug, Clone, Copy, PartialEq, Eq, Structural)]
pub enum TransactionDirection {
    Acquire,
    Consume,
}

#[derive(Debug, Clone, Default)]
pub struct TransactionFilter {
    pub ammo_type_id: Option<u128>,
    pub gun_id: Option<u128>,
    pub from: Option<Timestamp>,
    pub to: Option<Timestamp>,
    pub direction: Option<TransactionDirection>,
}

/// One row of the "totals by caliber" aggregation.
#[derive(Debug, Clone)]
pub struct CaliberSummary {
    pub caliber: String,
    /// Sum of positive deltas (acquired).
    pub acquired: i64,
    /// Sum of `|negative deltas|` (consumed).
    pub consumed: i64,
    /// `acquired - consumed`.
    pub net: i64,
}

/// One row of the "totals by gun" aggregation.
#[derive(Debug, Clone, Copy, PartialEq, Eq, Structural)]
pub struct GunUsageSummary {
    pub gun_id: u128,
    pub rounds_fired: i64,
    pub last_used_at: Option<Timestamp>,
}

/// A time-bucketed usage row; `bucket` is the first day of the bucket.
#[derive(Debug, Clone, Copy, PartialEq, Eq, Structural)]
pub struct TimeBucketUsage {
    pub bucket: Date,
    pub acquired: i64,
    pub consumed: i64,
}

#[derive(Debug, Clone, Copy, PartialEq, Eq, Structural)]
pub enum BucketSize {
    Day,
    Week,
    Month,
}

/// The name of a bucket size in SQL (`date_trunc`'s unit).
pub open spec fn bucket_name(b: BucketSize) -> Seq<char> {
    match b {
        BucketSize::Day => "day"@,
        BucketSize::Week => "week"@,
        BucketSize::Month => "month"@,
    }
}

impl BucketSize {
    pub fn as_sql(&self) -> (r: &'static str)
        ensures
            r@ == bucket_name(*self),
            *self == BucketSize::Day ==> r@ == "day"@,
            *self == BucketSize::Week ==> r@ == "week"@,
            *self == BucketSize::Month ==> r@ == "month"@,
    {
        match self {
            BucketSize::Day => "day",
            BucketSize::Week => "week",
            BucketSize::Month => "month",
        }
    }
}

// ------------------------------------------------------------------
// Wire shapes of the ammo routes
// ------------------------------------------------------------------

/// The `direction` query parameter.
#[derive(Debug, Clone, Copy, PartialEq, Eq, Structural)]
pub enum DirectionParam {
    Acquire,
    Consume,
}

impl From<DirectionParam> for TransactionDirection {
    fn from(d: DirectionParam) -> (r: TransactionDirection) {
        match d {
            DirectionParam::Acquire => TransactionDirection::Acquire,
            DirectionParam::Consume => TransactionDirection::Consume,
        }
    }
}

impl vstd::std_specs::convert::FromSpecImpl<DirectionParam> for TransactionDirection {
    open spec fn obeys_from_spec() -> bool {
        true
    }

    open spec fn from_spec(d: DirectionParam) -> TransactionDirection {
        match d {
            DirectionParam::Acquire => TransactionDirection::Acquire,
            DirectionParam::Consume => TransactionDirection::Consume,
        }
    }
}

/// The `bucket` query parameter.
#[derive(Debug, Clone, Copy, PartialEq, Eq, Structural)]
pub enum BucketParam {
    Day,
    Week,
    Month,
}

impl From<BucketParam> for BucketSize {
    fn from(b: BucketParam) -> (r: BucketSize) {
        match b {
            BucketParam::Day => BucketSize::Day,
            BucketParam::Week => BucketSize::Week,
            BucketParam::Month => BucketSize::Month,
        }
    }
}

/// The value of the `bucket` query parameter that asks for `p`.
pub open spec fn bucket_param_name(p: BucketParam) -> Seq<char> {
    match p {
        BucketParam::Day => "day"@,
        BucketParam::Week => "week"@,
        BucketParam::Month => "month"@,
    }
}

/// The bucket a query asks for is the bucket used: converting the
/// parameter keeps its name, so distinct parameters give distinct sizes.
pub proof fn lemma_bucket_param_keeps_its_name(p: BucketParam, q: BucketParam)
    ensures
        bucket_name(BucketSize::from_spec(p)) == bucket_param_name(p),
        p != q ==> BucketSize::from_spec(p) != BucketSize::from_spec(q),
{
    reveal_strlit("day");
    reveal_strlit("week");
    reveal_strlit("month");
}

impl vstd::std_specs::convert::FromSpecImpl<BucketParam> for BucketSize {
    open spec fn obeys_from_spec() -> bool {
        true
    }

    open spec fn from_spec(b: BucketParam) -> BucketSize {
        match b {
            BucketParam::Day => BucketSize::Day,
            BucketParam::Week => BucketSize::Week,
            BucketParam::Month => BucketSize::Month,
        }
    }
}

/// A "totals by caliber" row on the wire.
#[derive(Debug, Clone)]
pub struct CaliberSummaryResponse {
    pub caliber: String,
    pub acquired: i64,
    pub consumed: i64,
    pub net: i64,
}

impl From<CaliberSummary> for CaliberSummaryResponse {
    fn from(s: CaliberSummary) -> (r: CaliberSummaryResponse) {
        CaliberSummaryResponse {
            caliber: s.caliber,
            acquired: s.acquired,
            consumed: s.consumed,
            net: s.net,
        }
    }
}

impl vstd::std_specs::convert::FromSpecImpl<CaliberSummary> for CaliberSummaryResponse {
    open spec fn obeys_from_spec() -> bool {
        true
    }

    open spec fn from_spec(s: CaliberSummary) -> CaliberSummaryResponse {
        CaliberSummaryResponse {
            caliber: s.caliber,
            acquired: s.acquired,
            consumed: s.consumed,
            net: s.net,
        }
    }
}

/// A usage bucket on the wire.
#[derive(Debug, Clone, Copy, PartialEq, Eq, Structural)]
pub struct UsageBucketResponse {
    pub bucket: Date,
    pub acquired: i64,
    pub consumed: i64,
}

impl UsageBucketResponse {
    pub fn from_usage(b: TimeBucketUsage) -> (r: UsageBucketResponse)
        ensures
            r.bucket == b.bucket && r.acquired == b.acquired && r.consumed == b.consumed,
    {
        UsageBucketResponse { bucket: b.bucket, acquired: b.acquired, consumed: b.consumed }
    }
}

/// A "totals by gun" row on the wire.
#[derive(Debug, Clone, Copy, PartialEq, Eq, Structural)]
pub struct GunUsageResponse {
    pub gun_id: u128,
    pub rounds_fired: i64,
    pub last_used_at: Option<Timestamp>,
}

impl GunUsageResponse {
    pub fn from_usage(s: GunUsageSummary) -> (r: GunUsageResponse)
        ensures
            r.gun_id == s.gun_id && r.rounds_fired == s.rounds_fired && r.last_used_at
                == s.last_used_at,
    {
        GunUsageResponse {
            gun_id: s.gun_id,
            rounds_fired: s.rounds_fired,
            last_used_at: s.last_used_at,
        }
    }
}

/// The resulting stock of a recorded transaction on the wire.
#[derive(Debug, Clone, Copy, PartialEq, Eq, Structural)]
pub struct AmmoStockResponse {
    pub user_id: u128,
    pub ammo_type_id: u128,
    pub quantity: i32,
    pub updated_at: Timestamp,
}

impl AmmoStockResponse {
    pub fn from_stock(s: AmmoStock) -> (r: AmmoStockResponse)
        ensures
            r.user_id == s.user_id && r.ammo_type_id == s.ammo_type_id && r.quantity == s.quantity
                && r.updated_at == s.updated_at,
    {
        AmmoStockResponse {
            user_id: s.user_id,
            ammo_type_id: s.ammo_type_id,
            quantity: s.quantity,
            updated_at: s.updated_at,
        }
    }
}

} // verus!
