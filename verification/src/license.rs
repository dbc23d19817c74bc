//! Licenses: user-owned permits ([`License`]) and the admin-managed types
//! they belong to ([`LicenseType`]), which may carry a default validity
//! period used to compute the expiry date.

use vstd::prelude::*;
use crate::clock::{day_in_range, new_id, Date, Timestamp};
use crate::errors::{fails, fails_v, is_custom_validation, DomainError, ValidationError};
use crate::text::{concat3, is_blank, owned, trim, trim_seq};

verus! {

// ------------------------------------------------------------------
// LicenseType
// ------------------------------------------------------------------

#[derive(Debug, Clone)]
pub struct LicenseType {
    pub id: u128,
    /// Stable machine-readable code: `storage`, `hunting`, ...
    pub code: String,
    pub name: String,
    pub region: String,
    /// `None` means manual expiry only.
    pub validity_days: Option<i32>,
    pub instructions: Option<String>,
    pub created_at: Timestamp,
    pub updated_at: Timestamp,
}

/// The first check a new license type fails, as its message.
pub open spec fn license_type_fault(code: Seq<char>, name: Seq<char>, validity_days: Option<i32>) -> Option<
    Seq<char>,
> {
    if is_blank(code) {
        Some("code is required"@)
    } else if is_blank(name) {
        Some("name is required"@)
    } else if validity_days matches Some(d) && d <= 0 {
        Some("validity_days must be positive"@)
    } else {
        None
    }
}

impl LicenseType {
    /// A license type with the given id, created at `now`. Code and name
    /// must not be blank, a validity period must be positive; code, name
    /// and region are stored trimmed.
    pub fn new_at(
        id: u128,
        now: Timestamp,
        code: String,
        name: String,
        region: String,
        validity_days: Option<i32>,
        instructions: Option<String>,
    ) -> (r: Result<LicenseType, ValidationError>)
        ensures
            r is Ok <==> license_type_fault(code@, name@, validity_days) is None,
            r is Err ==> fails_v(r, license_type_fault(code@, name@, validity_days)->0),
            r matches Ok(t) ==> t.id == id && t.code@ == trim_seq(code@) && t.name@ == trim_seq(
                name@,
            ) && t.region@ == trim_seq(region@) && t.validity_days == validity_days
                && t.instructions == instructions && t.created_at == now && t.updated_at == now,
    {
        let c = trim(code.as_str());
        if c.as_str().is_empty() {
            return Err(ValidationError::custom("code is required"));
        }
        let n = trim(name.as_str());
        if n.as_str().is_empty() {
            return Err(ValidationError::custom("name is required"));
        }
        if let Some(d) = validity_days {
            if d <= 0 {
                return Err(ValidationError::custom("validity_days must be positive"));
            }
        }
        Ok(LicenseType {
            id,
            code: c,
            name: n,
            region: trim(region.as_str()),
            validity_days,
            instructions,
            created_at: now,
            updated_at: now,
        })
    }

    /// A license type with a fresh id, created now; see
    /// [`LicenseType::new_at`].
    pub fn new(
        code: String,
        name: String,
        region: String,
        validity_days: Option<i32>,
        instructions: Option<String>,
    ) -> (r: Result<LicenseType, ValidationError>)
        ensures
            r is Ok <==> license_type_fault(code@, name@, validity_days) is None,
            r is Err ==> fails_v(r, license_type_fault(code@, name@, validity_days)->0),
            r matches Ok(t) ==> t.code@ == trim_seq(code@) && t.name@ == trim_seq(name@)
                && t.region@ == trim_seq(region@) && t.validity_days == validity_days
                && t.instructions == instructions && t.created_at == t.updated_at,
    {
        LicenseType::new_at(
            new_id(),
            Timestamp::now(),
            code,
            name,
            region,
            validity_days,
            instructions,
        )
    }
}

/// The input of the create-license-type use case.
#[derive(Debug)]
pub struct CreateLicenseTypeInput {
    pub code: String,
    pub name: String,
    pub region: String,
    pub validity_days: Option<i32>,
    pub instructions: Option<String>,
}

/// The input of the update-license-type use case; `None` leaves a field
/// alone.
#[derive(Debug, Default)]
pub struct UpdateLicenseTypeInput {
    pub code: Option<String>,
    pub name: Option<String>,
    pub region: Option<String>,
    pub validity_days: Option<Option<i32>>,
    pub instructions: Option<Option<String>>,
}

pub open spec fn pick<T>(new: Option<T>, old: T) -> T {
    match new {
        Some(v) => v,
        None => old,
    }
}

/// Applies an admin's update to a license type at `now`: given fields
/// replace the stored ones as they are, and `updated_at` becomes `now`.
pub fn apply_license_type_update(t: &mut LicenseType, input: UpdateLicenseTypeInput, now: Timestamp)
    ensures
        final(t).id == old(t).id,
        final(t).code == pick(input.code, old(t).code),
        final(t).name == pick(input.name, old(t).name),
        final(t).region == pick(input.region, old(t).region),
        final(t).validity_days == pick(input.validity_days, old(t).validity_days),
        final(t).instructions == pick(input.instructions, old(t).instructions),
        final(t).created_at == old(t).created_at,
        final(t).updated_at == now,
{
    let UpdateLicenseTypeInput { code, name, region, validity_days, instructions } = input;
    if let Some(c) = code {
        t.code = c;
    }
    if let Some(n) = name {
        t.name = n;
    }
    if let Some(r) = region {
        t.region = r;
    }
    if let Some(d) = validity_days {
        t.validity_days = d;
    }
    if let Some(i) = instructions {
        t.instructions = i;
    }
    t.updated_at = now;
}

// ------------------------------------------------------------------
// License
// ------------------------------------------------------------------

pub open spec fn opt_view(o: Option<String>) -> Option<Seq<char>> {
    match o {
        Some(s) => Some(s@),
        None => None,
    }
}

pub open spec fn opt2_view(o: Option<Option<String>>) -> Option<Option<Seq<char>>> {
    match o {
        Some(x) => Some(opt_view(x)),
        None => None,
    }
}

pub open spec fn opt_date(o: Option<Date>) -> Option<int> {
    match o {
        Some(d) => Some(d@),
        None => None,
    }
}

pub open spec fn opt_ids(o: Option<Vec<u128>>) -> Option<Seq<u128>> {
    match o {
        Some(v) => Some(v@),
        None => None,
    }
}

/// A license as seen by contracts; dates are day numbers.
pub struct LicenseView {
    pub id: u128,
    pub user_id: u128,
    pub license_type_id: Option<u128>,
    pub license_number: Seq<char>,
    pub issuer: Seq<char>,
    pub issued_at: int,
    pub expires_at: int,
    pub notes: Option<Seq<char>>,
    pub scan_url: Option<Seq<char>>,
    pub gun_ids: Seq<u128>,
    pub created_at: Timestamp,
    pub updated_at: Timestamp,
}

/// A user-owned license document.
#[derive(Debug, Clone)]
pub struct License {
    id: u128,
    user_id: u128,
    license_type_id: Option<u128>,
    license_number: String,
    issuer: String,
    issued_at: Date,
    expires_at: Date,
    notes: Option<String>,
    scan_url: Option<String>,
    gun_ids: Vec<u128>,
    created_at: Timestamp,
    updated_at: Timestamp,
}

impl View for License {
    type V = LicenseView;

    closed spec fn view(&self) -> LicenseView {
        LicenseView {
            id: self.id,
            user_id: self.user_id,
            license_type_id: self.license_type_id,
            license_number: self.license_number@,
            issuer: self.issuer@,
            issued_at: self.issued_at@,
            expires_at: self.expires_at@,
            notes: opt_view(self.notes),
            scan_url: opt_view(self.scan_url),
            gun_ids: self.gun_ids@,
            created_at: self.created_at,
            updated_at: self.updated_at,
        }
    }
}

/// The first check a new license fails, as its message.
pub open spec fn license_fault(number: Seq<char>, issuer: Seq<char>, issued_at: int, expires_at: int) -> Option<
    Seq<char>,
> {
    if is_blank(number) {
        Some("license_number is required"@)
    } else if is_blank(issuer) {
        Some("issuer is required"@)
    } else if expires_at < issued_at {
        Some("expires_at must be on or after issued_at"@)
    } else {
        None
    }
}

/// The outcome of a partial update of `l`: the license afterwards, and
/// the message of the failed check, if one did. Fields are applied in
/// order; a blank number or issuer stops the update, and so does an
/// expiry before the issue date once both dates are applied; what was
/// applied before the failure stays. `updated_at` moves to `now` only on
/// success.
pub open spec fn license_update(
    l: LicenseView,
    license_type_id: Option<Option<u128>>,
    license_number: Option<Seq<char>>,
    issuer: Option<Seq<char>>,
    issued_at: Option<int>,
    expires_at: Option<int>,
    notes: Option<Option<Seq<char>>>,
    scan_url: Option<Option<Seq<char>>>,
    gun_ids: Option<Seq<u128>>,
    now: Timestamp,
) -> (LicenseView, Option<Seq<char>>) {
    let l1 = match license_type_id {
        Some(t) => LicenseView { license_type_id: t, ..l },
        None => l,
    };
    if license_number matches Some(n) && is_blank(n) {
        (l1, Some("license_number cannot be empty"@))
    } else {
        let l2 = match license_number {
            Some(n) => LicenseView { license_number: trim_seq(n), ..l1 },
            None => l1,
        };
        if issuer matches Some(i) && is_blank(i) {
            (l2, Some("issuer cannot be empty"@))
        } else {
            let l3 = match issuer {
                Some(i) => LicenseView { issuer: trim_seq(i), ..l2 },
                None => l2,
            };
            let l4 = match issued_at {
                Some(d) => LicenseView { issued_at: d, ..l3 },
                None => l3,
            };
            let l5 = match expires_at {
                Some(d) => LicenseView { expires_at: d, ..l4 },
                None => l4,
            };
            if l5.expires_at < l5.issued_at {
                (l5, Some("expires_at must be on or after issued_at"@))
            } else {
                let l6 = match notes {
                    Some(n) => LicenseView { notes: n, ..l5 },
                    None => l5,
                };
                let l7 = match scan_url {
                    Some(s) => LicenseView { scan_url: s, ..l6 },
                    None => l6,
                };
                let l8 = match gun_ids {
                    Some(g) => LicenseView { gun_ids: g, ..l7 },
                    None => l7,
                };
                (LicenseView { updated_at: now, ..l8 }, None)
            }
        }
    }
}

/// An update that gives no field changes nothing but the update time,
/// for a license whose expiry is not before its issue date.
pub proof fn lemma_license_empty_update(l: LicenseView, now: Timestamp)
    requires
        l.issued_at <= l.expires_at,
    ensures
        license_update(l, None, None, None, None, None, None, None, None, now) == (
            LicenseView { updated_at: now, ..l },
            None::<Seq<char>>,
        ),
{
}

/// A successful update leaves the expiry on or after the issue date, and
/// no update changes a license's id, owner or creation time.
pub proof fn lemma_license_update_keeps_dates_ordered(
    l: LicenseView,
    license_type_id: Option<Option<u128>>,
    license_number: Option<Seq<char>>,
    issuer: Option<Seq<char>>,
    issued_at: Option<int>,
    expires_at: Option<int>,
    notes: Option<Option<Seq<char>>>,
    scan_url: Option<Option<Seq<char>>>,
    gun_ids: Option<Seq<u128>>,
    now: Timestamp,
)
    ensures
        ({
            let (m, fault) = license_update(
                l,
                license_type_id,
                license_number,
                issuer,
                issued_at,
                expires_at,
                notes,
                scan_url,
                gun_ids,
                now,
            );
            &&& fault is None ==> m.issued_at <= m.expires_at
            &&& m.id == l.id
            &&& m.user_id == l.user_id
            &&& m.created_at == l.created_at
        }),
{
}

/// A successful update stores every field it is given (number and issuer
/// trimmed) and keeps every field it is not given; the update time
/// becomes `now`.
pub proof fn lemma_license_update_stores_given_fields(
    l: LicenseView,
    license_type_id: Option<Option<u128>>,
    license_number: Option<Seq<char>>,
    issuer: Option<Seq<char>>,
    issued_at: Option<int>,
    expires_at: Option<int>,
    notes: Option<Option<Seq<char>>>,
    scan_url: Option<Option<Seq<char>>>,
    gun_ids: Option<Seq<u128>>,
    now: Timestamp,
)
    ensures
        ({
            let (m, fault) = license_update(
                l,
                license_type_id,
                license_number,
                issuer,
                issued_at,
                expires_at,
                notes,
                scan_url,
                gun_ids,
                now,
            );
            fault is None ==> {
                &&& m.license_type_id == (match license_type_id {
                    Some(t) => t,
                    None => l.license_type_id,
                })
                &&& m.license_number == (match license_number {
                    Some(n) => trim_seq(n),
                    None => l.license_number,
                })
                &&& m.issuer == (match issuer {
                    Some(i) => trim_seq(i),
                    None => l.issuer,
                })
                &&& m.issued_at == (match issued_at {
                    Some(d) => d,
                    None => l.issued_at,
                })
                &&& m.expires_at == (match expires_at {
                    Some(d) => d,
                    None => l.expires_at,
                })
                &&& m.notes == (match notes {
                    Some(n) => n,
                    None => l.notes,
                })
                &&& m.scan_url == (match scan_url {
                    Some(u) => u,
                    None => l.scan_url,
                })
                &&& m.gun_ids == (match gun_ids {
                    Some(g) => g,
                    None => l.gun_ids,
                })
                &&& m.updated_at == now
            }
        }),
{
}

/// An update succeeds exactly when the number and issuer it is given are
/// not blank and the resulting expiry is on or after the resulting issue
/// date.
pub proof fn lemma_license_update_succeeds_when_valid(
    l: LicenseView,
    license_type_id: Option<Option<u128>>,
    license_number: Option<Seq<char>>,
    issuer: Option<Seq<char>>,
    issued_at: Option<int>,
    expires_at: Option<int>,
    notes: Option<Option<Seq<char>>>,
    scan_url: Option<Option<Seq<char>>>,
    gun_ids: Option<Seq<u128>>,
    now: Timestamp,
)
    ensures
        license_update(
            l,
            license_type_id,
            license_number,
            issuer,
            issued_at,
            expires_at,
            notes,
            scan_url,
            gun_ids,
            now,
        ).1 is None <==> {
            &&& !(license_number matches Some(n) && is_blank(n))
            &&& !(issuer matches Some(i) && is_blank(i))
            &&& (match issued_at {
                Some(d) => d,
                None => l.issued_at,
            }) <= (match expires_at {
                Some(d) => d,
                None => l.expires_at,
            })
        },
{
}

/// A license whose expiry is its issue date plus `validity_days` has
/// exactly that many days left on its issue day, and on any day it is
/// expired exactly when its days left are negative.
pub proof fn lemma_expiry_countdown(l: LicenseView, validity_days: int, today: int)
    requires
        l.expires_at == l.issued_at + validity_days,
    ensures
        l.expires_at - l.issued_at == validity_days,
        (l.expires_at < today) <==> (l.expires_at - today < 0),
{
}

impl License {
    /// A license with the given id, created at `now`. Number and issuer
    /// must not be blank (and are stored trimmed), and the expiry must be
    /// on or after the issue date.
    pub fn register_at(
        id: u128,
        now: Timestamp,
        user_id: u128,
        license_type_id: Option<u128>,
        license_number: String,
        issuer: String,
        issued_at: Date,
        expires_at: Date,
        notes: Option<String>,
        scan_url: Option<String>,
        gun_ids: Vec<u128>,
    ) -> (r: Result<License, ValidationError>)
        ensures
            r is Ok <==> license_fault(license_number@, issuer@, issued_at@, expires_at@) is None,
            r is Err ==> fails_v(
                r,
                license_fault(license_number@, issuer@, issued_at@, expires_at@)->0,
            ),
            r matches Ok(l) ==> l@ == (LicenseView {
                id,
                user_id,
                license_type_id,
                license_number: trim_seq(license_number@),
                issuer: trim_seq(issuer@),
                issued_at: issued_at@,
                expires_at: expires_at@,
                notes: opt_view(notes),
                scan_url: opt_view(scan_url),
                gun_ids: gun_ids@,
                created_at: now,
                updated_at: now,
            }),
    {
        let n = trim(license_number.as_str());
        if n.as_str().is_empty() {
            return Err(ValidationError::custom("license_number is required"));
        }
        let i = trim(issuer.as_str());
        if i.as_str().is_empty() {
            return Err(ValidationError::custom("issuer is required"));
        }
        if expires_at.is_before(&issued_at) {
            return Err(ValidationError::custom("expires_at must be on or after issued_at"));
        }
        Ok(License {
            id,
            user_id,
            license_type_id,
            license_number: n,
            issuer: i,
            issued_at,
            expires_at,
            notes,
            scan_url,
            gun_ids,
            created_at: now,
            updated_at: now,
        })
    }

    /// A license with a fresh id, created now; see
    /// [`License::register_at`].
    pub fn register(
        user_id: u128,
        license_type_id: Option<u128>,
        license_number: String,
        issuer: String,
        issued_at: Date,
        expires_at: Date,
        notes: Option<String>,
        scan_url: Option<String>,
        gun_ids: Vec<u128>,
    ) -> (r: Result<License, ValidationError>)
        ensures
            r is Ok <==> license_fault(license_number@, issuer@, issued_at@, expires_at@) is None,
            r is Err ==> fails_v(
                r,
                license_fault(license_number@, issuer@, issued_at@, expires_at@)->0,
            ),
            r matches Ok(l) ==> l@ == (LicenseView {
                id: l@.id,
                user_id,
                license_type_id,
                license_number: trim_seq(license_number@),
                issuer: trim_seq(issuer@),
                issued_at: issued_at@,
                expires_at: expires_at@,
                notes: opt_view(notes),
                scan_url: opt_view(scan_url),
                gun_ids: gun_ids@,
                created_at: l@.created_at,
                updated_at: l@.created_at,
            }),
    {
        License::register_at(
            new_id(),
            Timestamp::now(),
            user_id,
            license_type_id,
            license_number,
            issuer,
            issued_at,
            expires_at,
            notes,
            scan_url,
            gun_ids,
        )
    }

    /// Rebuilds a license from stored fields, without validation.
    pub fn rehydrate(
        id: u128,
        user_id: u128,
        license_type_id: Option<u128>,
        license_number: String,
        issuer: String,
        issued_at: Date,
        expires_at: Date,
        notes: Option<String>,
        scan_url: Option<String>,
        gun_ids: Vec<u128>,
        created_at: Timestamp,
        updated_at: Timestamp,
    ) -> (l: License)
        ensures
            l@ == (LicenseView {
                id,
                user_id,
                license_type_id,
                license_number: license_number@,
                issuer: issuer@,
                issued_at: issued_at@,
                expires_at: expires_at@,
                notes: opt_view(notes),
                scan_url: opt_view(scan_url),
                gun_ids: gun_ids@,
                created_at,
                updated_at,
            }),
    {
        License {
            id,
            user_id,
            license_type_id,
            license_number,
            issuer,
            issued_at,
            expires_at,
            notes,
            scan_url,
            gun_ids,
            created_at,
            updated_at,
        }
    }

    /// The expiry `validity_days` days after `issued_at`. The sum must be
    /// a date chrono can represent (adding past that panics in chrono).
    pub fn compute_expiry(issued_at: Date, validity_days: i32) -> (r: Date)
        requires
            day_in_range(issued_at@ + validity_days),
        ensures
            r@ == issued_at@ + validity_days,
    {
        issued_at.plus_days(validity_days)
    }

    pub fn id(&self) -> (r: u128)
        ensures
            r == self@.id,
    {
        self.id
    }

    pub fn user_id(&self) -> (r: u128)
        ensures
            r == self@.user_id,
    {
        self.user_id
    }

    pub fn license_type_id(&self) -> (r: Option<u128>)
        ensures
            r == self@.license_type_id,
    {
        self.license_type_id
    }

    pub fn license_number(&self) -> (r: &str)
        ensures
            r@ == self@.license_number,
    {
        self.license_number.as_str()
    }

    pub fn issuer(&self) -> (r: &str)
        ensures
            r@ == self@.issuer,
    {
        self.issuer.as_str()
    }

    pub fn issued_at(&self) -> (r: Date)
        ensures
            r@ == self@.issued_at,
    {
        self.issued_at
    }

    pub fn expires_at(&self) -> (r: Date)
        ensures
            r@ == self@.expires_at,
    {
        self.expires_at
    }

    pub fn notes(&self) -> (r: Option<&str>)
        ensures
            r matches Some(n) ==> self@.notes == Some(n@),
            r is None <==> self@.notes is None,
    {
        match &self.notes {
            Some(n) => Some(n.as_str()),
            None => None,
        }
    }

    pub fn scan_url(&self) -> (r: Option<&str>)
        ensures
            r matches Some(s) ==> self@.scan_url == Some(s@),
            r is None <==> self@.scan_url is None,
    {
        match &self.scan_url {
            Some(s) => Some(s.as_str()),
            None => None,
        }
    }

    pub fn gun_ids(&self) -> (r: &[u128])
        ensures
            r@ == self@.gun_ids,
    {
        self.gun_ids.as_slice()
    }

    pub fn created_at(&self) -> (r: Timestamp)
        ensures
            r == self@.created_at,
    {
        self.created_at
    }

    pub fn updated_at(&self) -> (r: Timestamp)
        ensures
            r == self@.updated_at,
    {
        self.updated_at
    }

    /// True iff the license has expired by `today` (it is still valid on
    /// its expiry day).
    pub fn is_expired(&self, today: Date) -> (r: bool)
        ensures
            r == (self@.expires_at < today@),
    {
        self.expires_at.is_before(&today)
    }

    /// Days remaining until expiry; negative once expired.
    pub fn days_until_expiry(&self, today: Date) -> (r: i64)
        ensures
            r == self@.expires_at - today@,
    {
        self.expires_at.days_since(&today)
    }

    /// Applies a partial update at instant `now` (see [`license_update`]).
    pub fn apply_update_at(
        &mut self,
        now: Timestamp,
        license_type_id: Option<Option<u128>>,
        license_number: Option<String>,
        issuer: Option<String>,
        issued_at: Option<Date>,
        expires_at: Option<Date>,
        notes: Option<Option<String>>,
        scan_url: Option<Option<String>>,
        gun_ids: Option<Vec<u128>>,
    ) -> (r: Result<(), ValidationError>)
        ensures
            ({
                let (l, fault) = license_update(
                    old(self)@,
                    license_type_id,
                    opt_view(license_number),
                    opt_view(issuer),
                    opt_date(issued_at),
                    opt_date(expires_at),
                    opt2_view(notes),
                    opt2_view(scan_url),
                    opt_ids(gun_ids),
                    now,
                );
                &&& final(self)@ == l
                &&& r is Ok <==> fault is None
                &&& r matches Err(e) ==> is_custom_validation(e, fault->0)
            }),
    {
        if let Some(t) = license_type_id {
            self.license_type_id = t;
        }
        if let Some(n) = license_number {
            let t = trim(n.as_str());
            if t.as_str().is_empty() {
                return Err(ValidationError::custom("license_number cannot be empty"));
            }
            self.license_number = t;
        }
        if let Some(i) = issuer {
            let t = trim(i.as_str());
            if t.as_str().is_empty() {
                return Err(ValidationError::custom("issuer cannot be empty"));
            }
            self.issuer = t;
        }
        if let Some(d) = issued_at {
            self.issued_at = d;
        }
        if let Some(d) = expires_at {
            self.expires_at = d;
        }
        if self.expires_at.is_before(&self.issued_at) {
            return Err(ValidationError::custom("expires_at must be on or after issued_at"));
        }
        if let Some(n) = notes {
            self.notes = n;
        }
        if let Some(s) = scan_url {
            self.scan_url = s;
        }
        if let Some(g) = gun_ids {
            self.gun_ids = g;
        }
        self.updated_at = now;
        Ok(())
    }

    /// Applies a partial update at the current instant; see
    /// [`License::apply_update_at`].
    pub fn apply_update(
        &mut self,
        license_type_id: Option<Option<u128>>,
        license_number: Option<String>,
        issuer: Option<String>,
        issued_at: Option<Date>,
        expires_at: Option<Date>,
        notes: Option<Option<String>>,
        scan_url: Option<Option<String>>,
        gun_ids: Option<Vec<u128>>,
    ) -> (r: Result<(), ValidationError>)
        ensures
            exists|now: Timestamp|
                {
                    let (l, fault) = #[trigger] license_update(
                        old(self)@,
                        license_type_id,
                        opt_view(license_number),
                        opt_view(issuer),
                        opt_date(issued_at),
                        opt_date(expires_at),
                        opt2_view(notes),
                        opt2_view(scan_url),
                        opt_ids(gun_ids),
                        now,
                    );
                    &&& final(self)@ == l
                    &&& r is Ok <==> fault is None
                    &&& r matches Err(e) ==> is_custom_validation(e, fault->0)
                },
    {
        let now = Timestamp::now();
        self.apply_update_at(
            now,
            license_type_id,
            license_number,
            issuer,
            issued_at,
            expires_at,
            notes,
            scan_url,
            gun_ids,
        )
    }
}

// ------------------------------------------------------------------
// License use-case decisions
// ------------------------------------------------------------------

/// The input of the register-license use case. Without `expires_at`, a
/// license type with a validity period determines it.
#[derive(Debug)]
pub struct RegisterLicenseInput {
    pub user_id: u128,
    pub license_type_id: Option<u128>,
    pub license_number: String,
    pub issuer: String,
    pub issued_at: Date,
    pub expires_at: Option<Date>,
    pub notes: Option<String>,
    pub scan_url: Option<String>,
    pub gun_ids: Vec<u128>,
}

/// How the expiry of a new license is found.
#[derive(Debug, Clone, Copy, PartialEq, Eq, Structural)]
pub enum ExpiryPlan {
    /// The caller gave it.
    Given(Date),
    /// Look up this license type and use its validity period.
    FromType(u128),
}

/// The first step of resolving a new license's expiry: the explicit date,
/// else the license type to look up; with neither, the registration fails.
pub fn plan_expiry(expires_at: Option<Date>, license_type_id: Option<u128>) -> (r: Result<
    ExpiryPlan,
    DomainError,
>)
    ensures
        expires_at matches Some(d) ==> r == Ok::<ExpiryPlan, DomainError>(ExpiryPlan::Given(d)),
        expires_at is None ==> (license_type_id matches Some(t) ==> r == Ok::<
            ExpiryPlan,
            DomainError,
        >(ExpiryPlan::FromType(t))),
        expires_at is None && license_type_id is None ==> fails(
            r,
            "expires_at is required when license_type_id is not set"@,
        ),
{
    match expires_at {
        Some(d) => Ok(ExpiryPlan::Given(d)),
        None => match license_type_id {
            Some(t) => Ok(ExpiryPlan::FromType(t)),
            None => Err(DomainError::custom("expires_at is required when license_type_id is not set")),
        },
    }
}

/// The expiry of a new license from its looked-up type: no such type is
/// `LicenseNotFound`, a type without a validity period is refused, and
/// otherwise the expiry is `issued_at` plus the validity period (which
/// must land on a date chrono represents).
pub fn expiry_from_type(issued_at: Date, license_type: Option<&LicenseType>) -> (r: Result<
    Date,
    DomainError,
>)
    requires
        license_type matches Some(t) ==> (t.validity_days matches Some(d) ==> day_in_range(
            issued_at@ + d,
        )),
    ensures
        license_type is None ==> r == Err::<Date, DomainError>(DomainError::LicenseNotFound),
        license_type matches Some(t) ==> (t.validity_days is None ==> fails(
            r,
            "license type `"@ + t.code@
                + "` has no default validity; expires_at must be supplied explicitly"@,
        )),
        license_type matches Some(t) ==> (t.validity_days matches Some(d) ==> (r matches Ok(e)
            && e@ == issued_at@ + d)),
{
    match license_type {
        None => Err(DomainError::LicenseNotFound),
        Some(t) => match t.validity_days {
            None => Err(
                DomainError::Validation(
                    ValidationError::Custom(
                        concat3(
                            "license type `",
                            t.code.as_str(),
                            "` has no default validity; expires_at must be supplied explicitly",
                        ),
                    ),
                ),
            ),
            Some(days) => Ok(License::compute_expiry(issued_at, days)),
        },
    }
}

/// A license of `input` with the resolved expiry, with the given id and
/// created at `now`.
pub fn license_from_input(id: u128, now: Timestamp, input: RegisterLicenseInput, expires_at: Date) -> (r:
    Result<License, DomainError>)
    ensures
        r is Ok <==> license_fault(
            input.license_number@,
            input.issuer@,
            input.issued_at@,
            expires_at@,
        ) is None,
        r is Err ==> fails(
            r,
            license_fault(input.license_number@, input.issuer@, input.issued_at@, expires_at@)->0,
        ),
        r matches Ok(l) ==> l@ == (LicenseView {
            id,
            user_id: input.user_id,
            license_type_id: input.license_type_id,
            license_number: trim_seq(input.license_number@),
            issuer: trim_seq(input.issuer@),
            issued_at: input.issued_at@,
            expires_at: expires_at@,
            notes: opt_view(input.notes),
            scan_url: opt_view(input.scan_url),
            gun_ids: input.gun_ids@,
            created_at: now,
            updated_at: now,
        }),
{
    match License::register_at(
        id,
        now,
        input.user_id,
        input.license_type_id,
        input.license_number,
        input.issuer,
        input.issued_at,
        expires_at,
        input.notes,
        input.scan_url,
        input.gun_ids,
    ) {
        Ok(l) => Ok(l),
        Err(e) => Err(DomainError::Validation(e)),
    }
}

/// The deadlines query's range check: `to` must not be before `from`.
pub fn check_date_range(from: Date, to: Date) -> (r: Result<(), DomainError>)
    ensures
        r is Ok <==> to@ >= from@,
        r is Err ==> fails(r, "`to` must be on or after `from`"@),
{
    if to.is_before(&from) {
        return Err(DomainError::custom("`to` must be on or after `from`"));
    }
    Ok(())
}

/// The input of the update-license use case.
#[derive(Debug, Default)]
pub struct UpdateLicenseInput {
    pub license_type_id: Option<Option<u128>>,
    pub license_number: Option<String>,
    pub issuer: Option<String>,
    pub issued_at: Option<Date>,
    pub expires_at: Option<Date>,
    pub notes: Option<Option<String>>,
    pub scan_url: Option<Option<String>>,
    pub gun_ids: Option<Vec<u128>>,
}

// ------------------------------------------------------------------
// Query shapes
// ------------------------------------------------------------------

#[derive(Debug, Clone, Default)]
pub struct LicenseFilter {
    /// Restrict to licenses linked to this gun.
    pub gun_id: Option<u128>,
    /// Restrict to licenses of this type.
    pub type_id: Option<u128>,
    /// `Some(true)`: only expired; `Some(false)`: only valid.
    pub expired: Option<bool>,
    /// Free-text search across number / issuer / notes.
    pub q: Option<String>,
}

/// A row of the "deadlines in range" query.
#[derive(Debug, Clone)]
pub struct LicenseDeadline {
    pub license_id: u128,
    pub license_number: String,
    pub issuer: String,
    pub expires_at: Date,
}

/// A license about to expire for which the `days_before` reminder has not
/// been sent yet.
#[derive(Debug, Clone)]
pub struct LicenseDueForReminder {
    pub license_id: u128,
    pub user_id: u128,
    pub license_number: String,
    pub expires_at: Date,
    pub days_before: i32,
}

// ------------------------------------------------------------------
// Wire shapes of the license routes
// ------------------------------------------------------------------

/// A license on the wire, with its expiry status on `today`.
#[derive(Debug, Clone)]
pub struct LicenseResponse {
    pub id: u128,
    pub user_id: u128,
    pub license_type_id: Option<u128>,
    pub license_number: String,
    pub issuer: String,
    pub issued_at: Date,
    pub expires_at: Date,
    pub is_expired: bool,
    pub days_until_expiry: i64,
    pub notes: Option<String>,
    pub scan_url: Option<String>,
    pub gun_ids: Vec<u128>,
    pub created_at: Timestamp,
    pub updated_at: Timestamp,
}

impl LicenseResponse {
    pub fn from_license(l: &License, today: Date) -> (r: LicenseResponse)
        ensures
            r.id == l@.id && r.user_id == l@.user_id && r.license_type_id == l@.license_type_id
                && r.license_number@ == l@.license_number && r.issuer@ == l@.issuer
                && r.issued_at@ == l@.issued_at && r.expires_at@ == l@.expires_at && r.is_expired
                == (l@.expires_at < today@) && r.days_until_expiry == l@.expires_at - today@
                && opt_view(r.notes) == l@.notes && opt_view(r.scan_url) == l@.scan_url
                && r.gun_ids@ == l@.gun_ids && r.created_at == l@.created_at && r.updated_at
                == l@.updated_at,
    {
        LicenseResponse {
            id: l.id(),
            user_id: l.user_id(),
            license_type_id: l.license_type_id(),
            license_number: l.license_number.clone(),
            issuer: l.issuer.clone(),
            issued_at: l.issued_at(),
            expires_at: l.expires_at(),
            is_expired: l.is_expired(today),
            days_until_expiry: l.days_until_expiry(today),
            notes: l.notes.clone(),
            scan_url: l.scan_url.clone(),
            gun_ids: l.gun_ids.clone(),
            created_at: l.created_at(),
            updated_at: l.updated_at(),
        }
    }
}

/// A deadline row on the wire.
#[derive(Debug, Clone)]
pub struct DeadlineResponse {
    pub license_id: u128,
    pub license_number: String,
    pub issuer: String,
    pub expires_at: Date,
}

/// Body of the create-license-type request.
#[derive(Debug)]
pub struct CreateLicenseTypeRequest {
    pub code: String,
    pub name: String,
    pub region: String,
    pub validity_days: Option<i32>,
    pub instructions: Option<String>,
}

/// Body of the update-license-type request.
#[derive(Debug, Default)]
pub struct UpdateLicenseTypeRequest {
    pub code: Option<String>,
    pub name: Option<String>,
    pub region: Option<String>,
    pub validity_days: Option<Option<i32>>,
    pub instructions: Option<Option<String>>,
}

/// The query of the list-license-types route.
#[derive(Debug, Clone, Default)]
pub struct LicenseTypeListQuery {
    pub region: Option<String>,
}

/// The region a license type gets when the request names none.
pub fn default_region() -> (r: String)
    ensures
        r@ == "RU"@,
{
    owned("RU")
}

} // verus!
