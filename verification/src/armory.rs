//! Armory: the user's firearms ([`Gun`]) and the admin-curated catalog
//! of models ([`CatalogEntry`]). A gun's serial number never leaves the
//! entity except through [`Gun::serial`] and [`Gun::serial_last4`].

use vstd::prelude::*;
use crate::clock::{new_id, Date, Timestamp};
use crate::errors::{fails, fails_v, is_custom_validation, DomainError, ValidationError};
use crate::text::{
    ascii_lower_seq, chars_of, concat3, eq_str, is_blank, string_from_range, to_ascii_lowercase,
    trim, trim_seq, utf8_len, utf8_len_capped,
};

verus! {

// ------------------------------------------------------------------
// WeaponClass
// ------------------------------------------------------------------

#[derive(Debug, Clone, Copy, PartialEq, Eq, Structural)]
pub enum WeaponClass {
    Rifle,
    Shotgun,
    Pistol,
    Revolver,
    Smg,
    Other,
}

pub open spec fn weapon_class_code(c: WeaponClass) -> Seq<char> {
    match c {
        WeaponClass::Rifle => "rifle"@,
        WeaponClass::Shotgun => "shotgun"@,
        WeaponClass::Pistol => "pistol"@,
        WeaponClass::Revolver => "revolver"@,
        WeaponClass::Smg => "smg"@,
        WeaponClass::Other => "other"@,
    }
}

pub open spec fn weapon_class_of(s: Seq<char>) -> Option<WeaponClass> {
    if s == "rifle"@ {
        Some(WeaponClass::Rifle)
    } else if s == "shotgun"@ {
        Some(WeaponClass::Shotgun)
    } else if s == "pistol"@ {
        Some(WeaponClass::Pistol)
    } else if s == "revolver"@ {
        Some(WeaponClass::Revolver)
    } else if s == "smg"@ {
        Some(WeaponClass::Smg)
    } else if s == "other"@ {
        Some(WeaponClass::Other)
    } else {
        None
    }
}

impl WeaponClass {
    pub fn as_str(&self) -> (r: &'static str)
        ensures
            r@ == weapon_class_code(*self),
    {
        match self {
            WeaponClass::Rifle => "rifle",
            WeaponClass::Shotgun => "shotgun",
            WeaponClass::Pistol => "pistol",
            WeaponClass::Revolver => "revolver",
            WeaponClass::Smg => "smg",
            WeaponClass::Other => "other",
        }
    }

    /// Parses a weapon class code, case-insensitively for ASCII.
    pub fn parse(s: &str) -> (r: Result<WeaponClass, ValidationError>)
        ensures
            r matches Ok(c) ==> weapon_class_of(ascii_lower_seq(s@)) == Some(c),
            r matches Err(e) ==> weapon_class_of(ascii_lower_seq(s@)) is None && is_custom_validation(
                e,
                "unknown weapon class `"@ + ascii_lower_seq(s@) + "`"@,
            ),
            r is Ok <==> weapon_class_of(ascii_lower_seq(s@)) is Some,
    {
        let lower = to_ascii_lowercase(s);
        let l = lower.as_str();
        if eq_str(l, "rifle") {
            Ok(WeaponClass::Rifle)
        } else if eq_str(l, "shotgun") {
            Ok(WeaponClass::Shotgun)
        } else if eq_str(l, "pistol") {
            Ok(WeaponClass::Pistol)
        } else if eq_str(l, "revolver") {
            Ok(WeaponClass::Revolver)
        } else if eq_str(l, "smg") {
            Ok(WeaponClass::Smg)
        } else if eq_str(l, "other") {
            Ok(WeaponClass::Other)
        } else {
            Err(ValidationError::Custom(concat3("unknown weapon class `", l, "`")))
        }
    }
}

impl std::str::FromStr for WeaponClass {
    type Err = ValidationError;

    fn from_str(s: &str) -> (r: Result<Self, Self::Err>)
        ensures
            r matches Ok(c) ==> weapon_class_of(ascii_lower_seq(s@)) == Some(c),
            r matches Err(e) ==> weapon_class_of(ascii_lower_seq(s@)) is None && is_custom_validation(
                e,
                "unknown weapon class `"@ + ascii_lower_seq(s@) + "`"@,
            ),
            r is Ok <==> weapon_class_of(ascii_lower_seq(s@)) is Some,
    {
        WeaponClass::parse(s)
    }
}

/// Every weapon class parses back from its code.
pub proof fn lemma_weapon_class_roundtrip(c: WeaponClass)
    ensures
        weapon_class_of(ascii_lower_seq(weapon_class_code(c))) == Some(c),
{
    reveal_strlit("rifle");
    reveal_strlit("shotgun");
    reveal_strlit("pistol");
    reveal_strlit("revolver");
    reveal_strlit("smg");
    reveal_strlit("other");
    let s = weapon_class_code(c);
    assert(ascii_lower_seq(s) =~= s);
    match c {
        WeaponClass::Rifle => {},
        WeaponClass::Shotgun => {
            assert(s.len() != "rifle"@.len());
        },
        WeaponClass::Pistol => {
            assert(s.len() != "rifle"@.len() && s.len() != "shotgun"@.len());
        },
        WeaponClass::Revolver => {
            assert(s.len() != "rifle"@.len() && s.len() != "shotgun"@.len() && s.len()
                != "pistol"@.len());
        },
        WeaponClass::Smg => {
            assert(s.len() != "rifle"@.len() && s.len() != "shotgun"@.len() && s.len()
                != "pistol"@.len() && s.len() != "revolver"@.len());
        },
        WeaponClass::Other => {
            assert(s[0] != "rifle"@[0] && s.len() != "shotgun"@.len() && s[0] != "pistol"@[0]
                && s.len() != "revolver"@.len() && s.len() != "smg"@.len());
        },
    }
}

// ------------------------------------------------------------------
// Gun
// ------------------------------------------------------------------

pub open spec fn opt_view(o: Option<String>) -> Option<Seq<char>> {
    match o {
        Some(s) => Some(s@),
        None => None,
    }
}

pub open spec fn opt2_view(o: Option<Option<String>>) -> Option<Option<Seq<char>>> {
    match o {
        Some(x) => Some(opt_view(x)),
        None => None,
    }
}

pub open spec fn opt_date(o: Option<Date>) -> Option<int> {
    match o {
        Some(d) => Some(d@),
        None => None,
    }
}

/// A gun as seen by contracts.
pub struct GunView {
    pub id: u128,
    pub user_id: u128,
    pub catalog_id: Option<u128>,
    pub manufacturer: Seq<char>,
    pub model: Seq<char>,
    pub class: WeaponClass,
    pub caliber: Seq<char>,
    pub serial: Seq<char>,
    pub date_of_purchase: int,
    pub photo_url: Option<Seq<char>>,
    pub notes: Option<Seq<char>>,
    pub created_at: Timestamp,
    pub updated_at: Timestamp,
}

/// A single firearm owned by a user. Construct with [`Gun::register`]
/// (new entry) or [`Gun::rehydrate`] (loaded from storage).
#[derive(Clone)]
pub struct Gun {
    id: u128,
    user_id: u128,
    catalog_id: Option<u128>,
    manufacturer: String,
    model: String,
    class: WeaponClass,
    caliber: String,
    serial: String,
    date_of_purchase: Date,
    photo_url: Option<String>,
    notes: Option<String>,
    created_at: Timestamp,
    updated_at: Timestamp,
}

impl View for Gun {
    type V = GunView;

    closed spec fn view(&self) -> GunView {
        GunView {
            id: self.id,
            user_id: self.user_id,
            catalog_id: self.catalog_id,
            manufacturer: self.manufacturer@,
            model: self.model@,
            class: self.class,
            caliber: self.caliber@,
            serial: self.serial@,
            date_of_purchase: self.date_of_purchase@,
            photo_url: opt_view(self.photo_url),
            notes: opt_view(self.notes),
            created_at: self.created_at,
            updated_at: self.updated_at,
        }
    }
}

/// Serial numbers may have at most this many bytes.
pub const MAX_SERIAL_BYTES: usize = 64;

/// The first check a new gun fails, as its message; `None` when it passes.
pub open spec fn gun_registration_fault(
    manufacturer: Seq<char>,
    model: Seq<char>,
    caliber: Seq<char>,
    serial: Seq<char>,
) -> Option<Seq<char>> {
    if is_blank(manufacturer) {
        Some("manufacturer is required"@)
    } else if is_blank(model) {
        Some("model is required"@)
    } else if is_blank(caliber) {
        Some("caliber is required"@)
    } else if is_blank(serial) {
        Some("serial is required"@)
    } else if utf8_len(trim_seq(serial)) > MAX_SERIAL_BYTES {
        Some("serial too long (>64)"@)
    } else {
        None
    }
}

/// The outcome of a partial update of `g`: the gun afterwards, and the
/// message of the check that failed, if one did. Fields are applied in
/// order and a failed check stops the update, keeping what was applied
/// before it; `updated_at` moves to `now` only on success.
pub open spec fn gun_update(
    g: GunView,
    catalog_id: Option<Option<u128>>,
    manufacturer: Option<Seq<char>>,
    model: Option<Seq<char>>,
    class: Option<WeaponClass>,
    caliber: Option<Seq<char>>,
    date_of_purchase: Option<int>,
    photo_url: Option<Option<Seq<char>>>,
    notes: Option<Option<Seq<char>>>,
    now: Timestamp,
) -> (GunView, Option<Seq<char>>) {
    let g1 = match catalog_id {
        Some(c) => GunView { catalog_id: c, ..g },
        None => g,
    };
    if manufacturer matches Some(m) && is_blank(m) {
        (g1, Some("manufacturer cannot be empty"@))
    } else {
        let g2 = match manufacturer {
            Some(m) => GunView { manufacturer: trim_seq(m), ..g1 },
            None => g1,
        };
        if model matches Some(m) && is_blank(m) {
            (g2, Some("model cannot be empty"@))
        } else {
            let g3 = match model {
                Some(m) => GunView { model: trim_seq(m), ..g2 },
                None => g2,
            };
            let g4 = match class {
                Some(c) => GunView { class: c, ..g3 },
                None => g3,
            };
            if caliber matches Some(c) && is_blank(c) {
                (g4, Some("caliber cannot be empty"@))
            } else {
                let g5 = match caliber {
                    Some(c) => GunView { caliber: trim_seq(c), ..g4 },
                    None => g4,
                };
                let g6 = match date_of_purchase {
                    Some(d) => GunView { date_of_purchase: d, ..g5 },
                    None => g5,
                };
                let g7 = match photo_url {
                    Some(p) => GunView { photo_url: p, ..g6 },
                    None => g6,
                };
                let g8 = match notes {
                    Some(n) => GunView { notes: n, ..g7 },
                    None => g7,
                };
                (GunView { updated_at: now, ..g8 }, None)
            }
        }
    }
}

/// An update that gives no field changes nothing but the update time.
pub proof fn lemma_gun_empty_update(g: GunView, now: Timestamp)
    ensures
        gun_update(g, None, None, None, None, None, None, None, None, now) == (
            GunView { updated_at: now, ..g },
            None::<Seq<char>>,
        ),
{
}

/// An update, whether it succeeds or stops at a failed check, never
/// changes a gun's id, owner, serial or creation time.
pub proof fn lemma_gun_update_keeps_identity(
    g: GunView,
    catalog_id: Option<Option<u128>>,
    manufacturer: Option<Seq<char>>,
    model: Option<Seq<char>>,
    class: Option<WeaponClass>,
    caliber: Option<Seq<char>>,
    date_of_purchase: Option<int>,
    photo_url: Option<Option<Seq<char>>>,
    notes: Option<Option<Seq<char>>>,
    now: Timestamp,
)
    ensures
        ({
            let (h, _) = gun_update(
                g,
                catalog_id,
                manufacturer,
                model,
                class,
                caliber,
                date_of_purchase,
                photo_url,
                notes,
                now,
            );
            &&& h.id == g.id
            &&& h.user_id == g.user_id
            &&& h.serial == g.serial
            &&& h.created_at == g.created_at
        }),
{
}

/// A successful update stores every field it is given (text fields
/// trimmed) and keeps every field it is not given; the update time
/// becomes `now`.
pub proof fn lemma_gun_update_stores_given_fields(
    g: GunView,
    catalog_id: Option<Option<u128>>,
    manufacturer: Option<Seq<char>>,
    model: Option<Seq<char>>,
    class: Option<WeaponClass>,
    caliber: Option<Seq<char>>,
    date_of_purchase: Option<int>,
    photo_url: Option<Option<Seq<char>>>,
    notes: Option<Option<Seq<char>>>,
    now: Timestamp,
)
    ensures
        ({
            let (h, fault) = gun_update(
                g,
                catalog_id,
                manufacturer,
                model,
                class,
                caliber,
                date_of_purchase,
                photo_url,
                notes,
                now,
            );
            fault is None ==> {
                &&& h.catalog_id == (match catalog_id {
                    Some(c) => c,
                    None => g.catalog_id,
                })
                &&& h.manufacturer == (match manufacturer {
                    Some(m) => trim_seq(m),
                    None => g.manufacturer,
                })
                &&& h.model == (match model {
                    Some(m) => trim_seq(m),
                    None => g.model,
                })
                &&& h.class == (match class {
                    Some(c) => c,
                    None => g.class,
                })
                &&& h.caliber == (match caliber {
                    Some(c) => trim_seq(c),
                    None => g.caliber,
                })
                &&& h.date_of_purchase == (match date_of_purchase {
                    Some(d) => d,
                    None => g.date_of_purchase,
                })
                &&& h.photo_url == (match photo_url {
                    Some(p) => p,
                    None => g.photo_url,
                })
                &&& h.notes == (match notes {
                    Some(n) => n,
                    None => g.notes,
                })
                &&& h.updated_at == now
            }
        }),
{
}

/// An update succeeds exactly when none of the text fields it is given
/// (manufacturer, model, caliber) is blank.
pub proof fn lemma_gun_update_succeeds_unless_blank(
    g: GunView,
    catalog_id: Option<Option<u128>>,
    manufacturer: Option<Seq<char>>,
    model: Option<Seq<char>>,
    class: Option<WeaponClass>,
    caliber: Option<Seq<char>>,
    date_of_purchase: Option<int>,
    photo_url: Option<Option<Seq<char>>>,
    notes: Option<Option<Seq<char>>>,
    now: Timestamp,
)
    ensures
        gun_update(
            g,
            catalog_id,
            manufacturer,
            model,
            class,
            caliber,
            date_of_purchase,
            photo_url,
            notes,
            now,
        ).1 is None <==> {
            &&& !(manufacturer matches Some(m) && is_blank(m))
            &&& !(model matches Some(m) && is_blank(m))
            &&& !(caliber matches Some(c) && is_blank(c))
        },
{
}

/// The masked serial is the serial's tail: its last four characters, or
/// the whole serial when it is shorter.
pub proof fn lemma_last4_is_the_tail(s: Seq<char>)
    ensures
        last4(s).len() == if s.len() < 4 {
            s.len()
        } else {
            4
        },
        last4(s) =~= s.subrange(s.len() - last4(s).len(), s.len() as int),
{
}

/// The last four chars of a serial, or all of it when it is shorter.
pub open spec fn last4(s: Seq<char>) -> Seq<char> {
    if s.len() <= 4 {
        s
    } else {
        s.skip(s.len() - 4)
    }
}

impl Gun {
    /// A new gun with the given id, registered at `now`. Manufacturer,
    /// model, caliber and serial must not be blank and the trimmed serial
    /// must fit in [`MAX_SERIAL_BYTES`]; the text fields are stored
    /// trimmed.
    pub fn register_at(
        id: u128,
        now: Timestamp,
        user_id: u128,
        catalog_id: Option<u128>,
        manufacturer: String,
        model: String,
        class: WeaponClass,
        caliber: String,
        serial: String,
        date_of_purchase: Date,
        photo_url: Option<String>,
        notes: Option<String>,
    ) -> (r: Result<Gun, ValidationError>)
        ensures
            r is Ok <==> gun_registration_fault(manufacturer@, model@, caliber@, serial@) is None,
            r matches Err(e) ==> is_custom_validation(
                e,
                gun_registration_fault(manufacturer@, model@, caliber@, serial@)->0,
            ),
            r matches Ok(g) ==> g@ == (GunView {
                id,
                user_id,
                catalog_id,
                manufacturer: trim_seq(manufacturer@),
                model: trim_seq(model@),
                class,
                caliber: trim_seq(caliber@),
                serial: trim_seq(serial@),
                date_of_purchase: date_of_purchase@,
                photo_url: opt_view(photo_url),
                notes: opt_view(notes),
                created_at: now,
                updated_at: now,
            }),
    {
        let m = trim(manufacturer.as_str());
        if m.as_str().is_empty() {
            return Err(ValidationError::custom("manufacturer is required"));
        }
        let mo = trim(model.as_str());
        if mo.as_str().is_empty() {
            return Err(ValidationError::custom("model is required"));
        }
        let c = trim(caliber.as_str());
        if c.as_str().is_empty() {
            return Err(ValidationError::custom("caliber is required"));
        }
        let s = trim(serial.as_str());
        if s.as_str().is_empty() {
            return Err(ValidationError::custom("serial is required"));
        }
        if utf8_len_capped(s.as_str(), MAX_SERIAL_BYTES + 1) > MAX_SERIAL_BYTES {
            return Err(ValidationError::custom("serial too long (>64)"));
        }
        Ok(Gun {
            id,
            user_id,
            catalog_id,
            manufacturer: m,
            model: mo,
            class,
            caliber: c,
            serial: s,
            date_of_purchase,
            photo_url,
            notes,
            created_at: now,
            updated_at: now,
        })
    }

    /// A new gun with a fresh id, registered now; see [`Gun::register_at`].
    pub fn register(
        user_id: u128,
        catalog_id: Option<u128>,
        manufacturer: String,
        model: String,
        class: WeaponClass,
        caliber: String,
        serial: String,
        date_of_purchase: Date,
        photo_url: Option<String>,
        notes: Option<String>,
    ) -> (r: Result<Gun, ValidationError>)
        ensures
            r is Ok <==> gun_registration_fault(manufacturer@, model@, caliber@, serial@) is None,
            r matches Err(e) ==> is_custom_validation(
                e,
                gun_registration_fault(manufacturer@, model@, caliber@, serial@)->0,
            ),
            r matches Ok(g) ==> g@ == (GunView {
                id: g@.id,
                user_id,
                catalog_id,
                manufacturer: trim_seq(manufacturer@),
                model: trim_seq(model@),
                class,
                caliber: trim_seq(caliber@),
                serial: trim_seq(serial@),
                date_of_purchase: date_of_purchase@,
                photo_url: opt_view(photo_url),
                notes: opt_view(notes),
                created_at: g@.created_at,
                updated_at: g@.created_at,
            }),
    {
        let id = new_id();
        let now = Timestamp::now();
        Gun::register_at(
            id,
            now,
            user_id,
            catalog_id,
            manufacturer,
            model,
            class,
            caliber,
            serial,
            date_of_purchase,
            photo_url,
            notes,
        )
    }

    /// Rebuilds a gun from stored fields, without validation.
    pub fn rehydrate(
        id: u128,
        user_id: u128,
        catalog_id: Option<u128>,
        manufacturer: String,
        model: String,
        class: WeaponClass,
        caliber: String,
        serial: String,
        date_of_purchase: Date,
        photo_url: Option<String>,
        notes: Option<String>,
        created_at: Timestamp,
        updated_at: Timestamp,
    ) -> (g: Gun)
        ensures
            g@ == (GunView {
                id,
                user_id,
                catalog_id,
                manufacturer: manufacturer@,
                model: model@,
                class,
                caliber: caliber@,
                serial: serial@,
                date_of_purchase: date_of_purchase@,
                photo_url: opt_view(photo_url),
                notes: opt_view(notes),
                created_at,
                updated_at,
            }),
    {
        Gun {
            id,
            user_id,
            catalog_id,
            manufacturer,
            model,
            class,
            caliber,
            serial,
            date_of_purchase,
            photo_url,
            notes,
            created_at,
            updated_at,
        }
    }

    pub fn id(&self) -> (r: u128)
        ensures
            r == self@.id,
    {
        self.id
    }

    pub fn user_id(&self) -> (r: u128)
        ensures
            r == self@.user_id,
    {
        self.user_id
    }

    pub fn catalog_id(&self) -> (r: Option<u128>)
        ensures
            r == self@.catalog_id,
    {
        self.catalog_id
    }

    pub fn manufacturer(&self) -> (r: &str)
        ensures
            r@ == self@.manufacturer,
    {
        self.manufacturer.as_str()
    }

    pub fn model(&self) -> (r: &str)
        ensures
            r@ == self@.model,
    {
        self.model.as_str()
    }

    pub fn class(&self) -> (r: WeaponClass)
        ensures
            r == self@.class,
    {
        self.class
    }

    pub fn caliber(&self) -> (r: &str)
        ensures
            r@ == self@.caliber,
    {
        self.caliber.as_str()
    }

    /// The full serial number.
    pub fn serial(&self) -> (r: &str)
        ensures
            r@ == self@.serial,
    {
        self.serial.as_str()
    }

    pub fn date_of_purchase(&self) -> (r: Date)
        ensures
            r@ == self@.date_of_purchase,
    {
        self.date_of_purchase
    }

    pub fn photo_url(&self) -> (r: Option<&str>)
        ensures
            r matches Some(p) ==> self@.photo_url == Some(p@),
            r is None <==> self@.photo_url is None,
    {
        match &self.photo_url {
            Some(p) => Some(p.as_str()),
            None => None,
        }
    }

    pub fn notes(&self) -> (r: Option<&str>)
        ensures
            r matches Some(n) ==> self@.notes == Some(n@),
            r is None <==> self@.notes is None,
    {
        match &self.notes {
            Some(n) => Some(n.as_str()),
            None => None,
        }
    }

    pub fn created_at(&self) -> (r: Timestamp)
        ensures
            r == self@.created_at,
    {
        self.created_at
    }

    pub fn updated_at(&self) -> (r: Timestamp)
        ensures
            r == self@.updated_at,
    {
        self.updated_at
    }

    /// The last four chars of the serial, for UI hints, or the whole
    /// serial when it is shorter.
    pub fn serial_last4(&self) -> (r: String)
        ensures
            r@ == last4(self@.serial),
    {
        let v = chars_of(self.serial.as_str());
        let n = v.len();
        if n <= 4 {
            string_from_range(&v, 0, n)
        } else {
            string_from_range(&v, n - 4, n)
        }
    }

    /// Applies a partial update at instant `now`: each `Some` field is
    /// set, text fields trimmed; a blank manufacturer, model or caliber
    /// stops the update with an error (see [`gun_update`]).
    pub fn apply_update_at(
        &mut self,
        now: Timestamp,
        catalog_id: Option<Option<u128>>,
        manufacturer: Option<String>,
        model: Option<String>,
        class: Option<WeaponClass>,
        caliber: Option<String>,
        date_of_purchase: Option<Date>,
        photo_url: Option<Option<String>>,
        notes: Option<Option<String>>,
    ) -> (r: Result<(), ValidationError>)
        ensures
            ({
                let (g, fault) = gun_update(
                    old(self)@,
                    catalog_id,
                    opt_view(manufacturer),
                    opt_view(model),
                    class,
                    opt_view(caliber),
                    opt_date(date_of_purchase),
                    opt2_view(photo_url),
                    opt2_view(notes),
                    now,
                );
                &&& final(self)@ == g
                &&& r is Ok <==> fault is None
                &&& r matches Err(e) ==> is_custom_validation(e, fault->0)
            }),
    {
        if let Some(c) = catalog_id {
            self.catalog_id = c;
        }
        if let Some(m) = manufacturer {
            let t = trim(m.as_str());
            if t.as_str().is_empty() {
                return Err(ValidationError::custom("manufacturer cannot be empty"));
            }
            self.manufacturer = t;
        }
        if let Some(m) = model {
            let t = trim(m.as_str());
            if t.as_str().is_empty() {
                return Err(ValidationError::custom("model cannot be empty"));
            }
            self.model = t;
        }
        if let Some(c) = class {
            self.class = c;
        }
        if let Some(c) = caliber {
            let t = trim(c.as_str());
            if t.as_str().is_empty() {
                return Err(ValidationError::custom("caliber cannot be empty"));
            }
            self.caliber = t;
        }
        if let Some(d) = date_of_purchase {
            self.date_of_purchase = d;
        }
        if let Some(p) = photo_url {
            self.photo_url = p;
        }
        if let Some(n) = notes {
            self.notes = n;
        }
        self.updated_at = now;
        Ok(())
    }

    /// Applies a partial update at the current instant; see
    /// [`Gun::apply_update_at`].
    pub fn apply_update(
        &mut self,
        catalog_id: Option<Option<u128>>,
        manufacturer: Option<String>,
        model: Option<String>,
        class: Option<WeaponClass>,
        caliber: Option<String>,
        date_of_purchase: Option<Date>,
        photo_url: Option<Option<String>>,
        notes: Option<Option<String>>,
    ) -> (r: Result<(), ValidationError>)
        ensures
            exists|now: Timestamp|
                {
                    let (g, fault) = #[trigger] gun_update(
                        old(self)@,
                        catalog_id,
                        opt_view(manufacturer),
                        opt_view(model),
                        class,
                        opt_view(caliber),
                        opt_date(date_of_purchase),
                        opt2_view(photo_url),
                        opt2_view(notes),
                        now,
                    );
                    &&& final(self)@ == g
                    &&& r is Ok <==> fault is None
                    &&& r matches Err(e) ==> is_custom_validation(e, fault->0)
                },
    {
        let now = Timestamp::now();
        self.apply_update_at(
            now,
            catalog_id,
            manufacturer,
            model,
            class,
            caliber,
            date_of_purchase,
            photo_url,
            notes,
        )
    }
}

/// The partial update of a gun as the update use case receives it; the
/// serial, when given, replaces the stored one as is.
pub struct UpdateGunInput {
    pub catalog_id: Option<Option<u128>>,
    pub manufacturer: Option<String>,
    pub model: Option<String>,
    pub class: Option<WeaponClass>,
    pub caliber: Option<String>,
    pub serial: Option<String>,
    pub date_of_purchase: Option<Date>,
    pub photo_url: Option<Option<String>>,
    pub notes: Option<Option<String>>,
}

/// What updating a stored gun gives: the gun afterwards, or the message
/// of the failed check. First the partial update of [`gun_update`]; then,
/// if a new serial is given, it must not be blank and must have at most
/// [`MAX_SERIAL_BYTES`] bytes, and it replaces the stored serial untrimmed.
pub open spec fn gun_update_outcome(
    g: GunView,
    input: UpdateGunInput,
    now: Timestamp,
) -> Result<GunView, Seq<char>> {
    let (g1, fault) = gun_update(
        g,
        input.catalog_id,
        opt_view(input.manufacturer),
        opt_view(input.model),
        input.class,
        opt_view(input.caliber),
        opt_date(input.date_of_purchase),
        opt2_view(input.photo_url),
        opt2_view(input.notes),
        now,
    );
    if fault is Some {
        Err(fault->0)
    } else {
        match input.serial {
            None => Ok(g1),
            Some(s) => if is_blank(s@) {
                Err("serial cannot be empty"@)
            } else if utf8_len(s@) > MAX_SERIAL_BYTES {
                Err("serial too long"@)
            } else {
                Ok(GunView { serial: s@, ..g1 })
            },
        }
    }
}

/// The update-gun use case's decision at `now`; see [`gun_update_outcome`].
pub fn update_gun(gun: Gun, input: UpdateGunInput, now: Timestamp) -> (r: Result<Gun, DomainError>)
    ensures
        match gun_update_outcome(gun@, input, now) {
            Ok(v) => (r matches Ok(out) && out@ == v),
            Err(m) => fails(r, m),
        },
{
    let mut gun = gun;
    let UpdateGunInput {
        catalog_id,
        manufacturer,
        model,
        class,
        caliber,
        serial,
        date_of_purchase,
        photo_url,
        notes,
    } = input;
    match gun.apply_update_at(
        now,
        catalog_id,
        manufacturer,
        model,
        class,
        caliber,
        date_of_purchase,
        photo_url,
        notes,
    ) {
        Ok(()) => {},
        Err(e) => {
            return Err(DomainError::Validation(e));
        },
    }
    if let Some(new_serial) = serial {
        let t = trim(new_serial.as_str());
        if t.as_str().is_empty() {
            return Err(DomainError::custom("serial cannot be empty"));
        }
        if utf8_len_capped(new_serial.as_str(), MAX_SERIAL_BYTES + 1) > MAX_SERIAL_BYTES {
            return Err(DomainError::custom("serial too long"));
        }
        gun.serial = new_serial;
    }
    Ok(gun)
}

// ------------------------------------------------------------------
// CatalogEntry
// ------------------------------------------------------------------

/// An admin-curated reference model, used to autofill a gun form.
#[derive(Debug, Clone)]
pub struct CatalogEntry {
    pub id: u128,
    pub manufacturer: String,
    pub model: String,
    pub class: WeaponClass,
    pub caliber: String,
    pub barrel_length_mm: Option<i32>,
    pub weight_g: Option<i32>,
    pub capacity: Option<i32>,
    pub notes: Option<String>,
    pub created_at: Timestamp,
    pub updated_at: Timestamp,
}

impl CatalogEntry {
    /// A catalog entry with the given id, created at `now`; manufacturer,
    /// model and caliber must not be blank and are stored trimmed.
    pub fn new_at(
        id: u128,
        now: Timestamp,
        manufacturer: String,
        model: String,
        class: WeaponClass,
        caliber: String,
        barrel_length_mm: Option<i32>,
        weight_g: Option<i32>,
        capacity: Option<i32>,
        notes: Option<String>,
    ) -> (r: Result<CatalogEntry, ValidationError>)
        ensures
            r is Ok <==> !(is_blank(manufacturer@) || is_blank(model@) || is_blank(caliber@)),
            r is Err ==> fails_v(r, "manufacturer, model, caliber are required"@),
            r matches Ok(e) ==> e.id == id && e.manufacturer@ == trim_seq(manufacturer@)
                && e.model@ == trim_seq(model@) && e.class == class && e.caliber@ == trim_seq(
                caliber@,
            ) && e.barrel_length_mm == barrel_length_mm && e.weight_g == weight_g && e.capacity
                == capacity && e.notes == notes && e.created_at == now && e.updated_at == now,
    {
        let m = trim(manufacturer.as_str());
        let mo = trim(model.as_str());
        let c = trim(caliber.as_str());
        if m.as_str().is_empty() || mo.as_str().is_empty() || c.as_str().is_empty() {
            return Err(ValidationError::custom("manufacturer, model, caliber are required"));
        }
        Ok(CatalogEntry {
            id,
            manufacturer: m,
            model: mo,
            class,
            caliber: c,
            barrel_length_mm,
            weight_g,
            capacity,
            notes,
            created_at: now,
            updated_at: now,
        })
    }

    /// A catalog entry with a fresh id, created now; see
    /// [`CatalogEntry::new_at`].
    pub fn new(
        manufacturer: String,
        model: String,
        class: WeaponClass,
        caliber: String,
        barrel_length_mm: Option<i32>,
        weight_g: Option<i32>,
        capacity: Option<i32>,
        notes: Option<String>,
    ) -> (r: Result<CatalogEntry, ValidationError>)
        ensures
            r is Ok <==> !(is_blank(manufacturer@) || is_blank(model@) || is_blank(caliber@)),
            r is Err ==> fails_v(r, "manufacturer, model, caliber are required"@),
            r matches Ok(e) ==> e.manufacturer@ == trim_seq(manufacturer@) && e.model@ == trim_seq(
                model@,
            ) && e.class == class && e.caliber@ == trim_seq(caliber@) && e.barrel_length_mm
                == barrel_length_mm && e.weight_g == weight_g && e.capacity == capacity && e.notes
                == notes && e.created_at == e.updated_at,
    {
        let id = new_id();
        let now = Timestamp::now();
        CatalogEntry::new_at(
            id,
            now,
            manufacturer,
            model,
            class,
            caliber,
            barrel_length_mm,
            weight_g,
            capacity,
            notes,
        )
    }
}

/// The input of the create-catalog-entry use case.
#[derive(Debug)]
pub struct CreateCatalogInput {
    pub manufacturer: String,
    pub model: String,
    pub class: WeaponClass,
    pub caliber: String,
    pub barrel_length_mm: Option<i32>,
    pub weight_g: Option<i32>,
    pub capacity: Option<i32>,
    pub notes: Option<String>,
}

/// The input of the update-catalog-entry use case; `None` leaves a field
/// alone.
#[derive(Debug, Default)]
pub struct UpdateCatalogInput {
    pub manufacturer: Option<String>,
    pub model: Option<String>,
    pub class: Option<WeaponClass>,
    pub caliber: Option<String>,
    pub barrel_length_mm: Option<Option<i32>>,
    pub weight_g: Option<Option<i32>>,
    pub capacity: Option<Option<i32>>,
    pub notes: Option<Option<String>>,
}

pub open spec fn pick<T>(new: Option<T>, old: T) -> T {
    match new {
        Some(v) => v,
        None => old,
    }
}

/// Applies an admin's update to a catalog entry at `now`: every given
/// field replaces the stored one as is, and `updated_at` becomes `now`.
pub fn apply_catalog_update(e: &mut CatalogEntry, input: UpdateCatalogInput, now: Timestamp)
    ensures
        final(e).id == old(e).id,
        final(e).manufacturer == pick(input.manufacturer, old(e).manufacturer),
        final(e).model == pick(input.model, old(e).model),
        final(e).class == pick(input.class, old(e).class),
        final(e).caliber == pick(input.caliber, old(e).caliber),
        final(e).barrel_length_mm == pick(input.barrel_length_mm, old(e).barrel_length_mm),
        final(e).weight_g == pick(input.weight_g, old(e).weight_g),
        final(e).capacity == pick(input.capacity, old(e).capacity),
        final(e).notes == pick(input.notes, old(e).notes),
        final(e).created_at == old(e).created_at,
        final(e).updated_at == now,
{
    let UpdateCatalogInput {
        manufacturer,
        model,
        class,
        caliber,
        barrel_length_mm,
        weight_g,
        capacity,
        notes,
    } = input;
    if let Some(v) = manufacturer {
        e.manufacturer = v;
    }
    if let Some(v) = model {
        e.model = v;
    }
    if let Some(v) = class {
        e.class = v;
    }
    if let Some(v) = caliber {
        e.caliber = v;
    }
    if let Some(v) = barrel_length_mm {
        e.barrel_length_mm = v;
    }
    if let Some(v) = weight_g {
        e.weight_g = v;
    }
    if let Some(v) = capacity {
        e.capacity = v;
    }
    if let Some(v) = notes {
        e.notes = v;
    }
    e.updated_at = now;
}

// ------------------------------------------------------------------
// Query shapes
// ------------------------------------------------------------------

/// Optional list filters for guns.
#[derive(Debug, Clone, Default)]
pub struct GunFilter {
    pub class: Option<WeaponClass>,
    pub caliber: Option<String>,
    /// Case-insensitive substring match on manufacturer / model / notes.
    pub q: Option<String>,
}

/// Optional list filters for the catalog.
#[derive(Debug, Clone, Default)]
pub struct CatalogFilter {
    pub class: Option<WeaponClass>,
    pub caliber: Option<String>,
    /// Substring match across manufacturer + model.
    pub q: Option<String>,
}

// ------------------------------------------------------------------
// Wire shapes of the armory routes
// ------------------------------------------------------------------

/// Body of the create-gun request.
#[derive(Debug)]
pub struct CreateGunRequest {
    pub catalog_id: Option<u128>,
    pub manufacturer: String,
    pub model: String,
    pub class: WeaponClass,
    pub caliber: String,
    pub serial: String,
    pub date_of_purchase: Date,
    pub photo_url: Option<String>,
    pub notes: Option<String>,
}

/// Body of the update-gun request. `Some(None)` clears; `Some(Some(..))`
/// sets; `None` leaves alone.
#[derive(Debug, Default)]
pub struct UpdateGunRequest {
    pub catalog_id: Option<Option<u128>>,
    pub manufacturer: Option<String>,
    pub model: Option<String>,
    pub class: Option<WeaponClass>,
    pub caliber: Option<String>,
    pub serial: Option<String>,
    pub date_of_purchase: Option<Date>,
    pub photo_url: Option<Option<String>>,
    pub notes: Option<Option<String>>,
}

/// The input of the register-gun use case.
#[derive(Debug)]
pub struct RegisterGunInput {
    pub user_id: u128,
    pub catalog_id: Option<u128>,
    pub manufacturer: String,
    pub model: String,
    pub class: WeaponClass,
    pub caliber: String,
    pub serial: String,
    pub date_of_purchase: Date,
    pub photo_url: Option<String>,
    pub notes: Option<String>,
}

/// The query of the list-guns route.
#[derive(Debug, Clone, Default)]
pub struct GunListQuery {
    pub class: Option<WeaponClass>,
    pub caliber: Option<String>,
    pub q: Option<String>,
}

/// Body of the create-catalog-entry request.
#[derive(Debug)]
pub struct CreateCatalogRequest {
    pub manufacturer: String,
    pub model: String,
    pub class: WeaponClass,
    pub caliber: String,
    pub barrel_length_mm: Option<i32>,
    pub weight_g: Option<i32>,
    pub capacity: Option<i32>,
    pub notes: Option<String>,
}

/// Body of the update-catalog-entry request.
#[derive(Debug, Default)]
pub struct UpdateCatalogRequest {
    pub manufacturer: Option<String>,
    pub model: Option<String>,
    pub class: Option<WeaponClass>,
    pub caliber: Option<String>,
    pub barrel_length_mm: Option<Option<i32>>,
    pub weight_g: Option<Option<i32>>,
    pub capacity: Option<Option<i32>>,
    pub notes: Option<Option<String>>,
}

/// The query of the list-catalog route.
#[derive(Debug, Clone, Default)]
pub struct CatalogListQuery {
    pub class: Option<WeaponClass>,
    pub caliber: Option<String>,
    pub q: Option<String>,
}

/// The create-gun request as the register-gun use case's input, owned by
/// `user_id`.
pub fn create_to_input(user_id: u128, req: CreateGunRequest) -> (r: RegisterGunInput)
    ensures
        r.user_id == user_id && r.catalog_id == req.catalog_id && r.manufacturer
            == req.manufacturer && r.model == req.model && r.class == req.class && r.caliber
            == req.caliber && r.serial == req.serial && r.date_of_purchase == req.date_of_purchase
            && r.photo_url == req.photo_url && r.notes == req.notes,
{
    RegisterGunInput {
        user_id,
        catalog_id: req.catalog_id,
        manufacturer: req.manufacturer,
        model: req.model,
        class: req.class,
        caliber: req.caliber,
        serial: req.serial,
        date_of_purchase: req.date_of_purchase,
        photo_url: req.photo_url,
        notes: req.notes,
    }
}

/// The update-gun request as the update-gun use case's input.
pub fn update_to_input(req: UpdateGunRequest) -> (r: UpdateGunInput)
    ensures
        r.catalog_id == req.catalog_id && r.manufacturer == req.manufacturer && r.model
            == req.model && r.class == req.class && r.caliber == req.caliber && r.serial
            == req.serial && r.date_of_purchase == req.date_of_purchase && r.photo_url
            == req.photo_url && r.notes == req.notes,
{
    UpdateGunInput {
        catalog_id: req.catalog_id,
        manufacturer: req.manufacturer,
        model: req.model,
        class: req.class,
        caliber: req.caliber,
        serial: req.serial,
        date_of_purchase: req.date_of_purchase,
        photo_url: req.photo_url,
        notes: req.notes,
    }
}

/// The create-catalog request as the use case's input.
pub fn cat_create_to_input(req: CreateCatalogRequest) -> (r: CreateCatalogInput)
    ensures
        r.manufacturer == req.manufacturer && r.model == req.model && r.class == req.class
            && r.caliber == req.caliber && r.barrel_length_mm == req.barrel_length_mm && r.weight_g
            == req.weight_g && r.capacity == req.capacity && r.notes == req.notes,
{
    CreateCatalogInput {
        manufacturer: req.manufacturer,
        model: req.model,
        class: req.class,
        caliber: req.caliber,
        barrel_length_mm: req.barrel_length_mm,
        weight_g: req.weight_g,
        capacity: req.capacity,
        notes: req.notes,
    }
}

/// The update-catalog request as the use case's input.
pub fn cat_update_to_input(req: UpdateCatalogRequest) -> (r: UpdateCatalogInput)
    ensures
        r.manufacturer == req.manufacturer && r.model == req.model && r.class == req.class
            && r.caliber == req.caliber && r.barrel_length_mm == req.barrel_length_mm && r.weight_g
            == req.weight_g && r.capacity == req.capacity && r.notes == req.notes,
{
    UpdateCatalogInput {
        manufacturer: req.manufacturer,
        model: req.model,
        class: req.class,
        caliber: req.caliber,
        barrel_length_mm: req.barrel_length_mm,
        weight_g: req.weight_g,
        capacity: req.capacity,
        notes: req.notes,
    }
}

/// The default gun response: never the serial, only its last four chars.
#[derive(Debug, Clone)]
pub struct GunResponse {
    pub id: u128,
    pub user_id: u128,
    pub catalog_id: Option<u128>,
    pub manufacturer: String,
    pub model: String,
    pub class: String,
    pub caliber: String,
    pub serial_last4: String,
    pub date_of_purchase: Date,
    pub photo_url: Option<String>,
    pub notes: Option<String>,
    pub created_at: Timestamp,
    pub updated_at: Timestamp,
}

impl GunResponse {
    pub fn from_gun(g: &Gun) -> (r: GunResponse)
        ensures
            r.id == g@.id && r.user_id == g@.user_id && r.catalog_id == g@.catalog_id
                && r.manufacturer@ == g@.manufacturer && r.model@ == g@.model && r.class@
                == weapon_class_code(g@.class) && r.caliber@ == g@.caliber && r.serial_last4@
                == last4(g@.serial) && r.date_of_purchase@ == g@.date_of_purchase && opt_view(
                r.photo_url,
            ) == g@.photo_url && opt_view(r.notes) == g@.notes && r.created_at == g@.created_at
                && r.updated_at == g@.updated_at,
    {
        GunResponse {
            id: g.id(),
            user_id: g.user_id(),
            catalog_id: g.catalog_id(),
            manufacturer: g.manufacturer.clone(),
            model: g.model.clone(),
            class: crate::text::owned(g.class().as_str()),
            caliber: g.caliber.clone(),
            serial_last4: g.serial_last4(),
            date_of_purchase: g.date_of_purchase(),
            photo_url: g.photo_url.clone(),
            notes: g.notes.clone(),
            created_at: g.created_at(),
            updated_at: g.updated_at(),
        }
    }
}

/// The response that reveals a gun's full serial.
#[derive(Debug, Clone)]
pub struct GunSerialResponse {
    pub id: u128,
    pub serial: String,
}

impl GunSerialResponse {
    pub fn from_gun(g: &Gun) -> (r: GunSerialResponse)
        ensures
            r.id == g@.id && r.serial@ == g@.serial,
    {
        GunSerialResponse { id: g.id(), serial: g.serial.clone() }
    }
}

} // verus!
