//! User aggregate root: value objects (region, language, status) and
//! the `User` entity with its lifecycle Pending -> Verified, and Blocked.

use vstd::prelude::*;
use crate::clock::{calendar_ymd, day_in_range, new_id, Date, Timestamp};
use crate::errors::{is_custom_validation, DomainError, ValidationError};
use crate::text::{
    all_ascii_alphabetic, ascii_lower_seq, concat3, eq_str, is_ascii_alphabetic, owned,
    to_ascii_lowercase, to_uppercase, trim, trim_seq, unicode_upper, utf8_len, utf8_len_capped,
};

verus! {

// ------------------------------------------------------------------
// Region
// ------------------------------------------------------------------

/// Two-letter region code per ISO 3166-1 alpha-2 (RU, US, ...), stored
/// upper-case.
#[derive(Debug, Clone)]
pub struct Region(String);

impl View for Region {
    type V = Seq<char>;

    closed spec fn view(&self) -> Seq<char> {
        self.0@
    }
}

/// The normalised form of a region input: trimmed, then upper-cased.
pub open spec fn region_normal(raw: Seq<char>) -> Seq<char> {
    unicode_upper(trim_seq(raw))
}

/// A normalised region code is accepted iff it is two bytes long and made
/// of ASCII letters only.
pub open spec fn region_acceptable(code: Seq<char>) -> bool {
    &&& utf8_len(code) == 2
    &&& forall|i: int| 0 <= i < code.len() ==> is_ascii_alphabetic(#[trigger] code[i])
}

impl Region {
    /// Validates a region code.
    pub fn new(value: &str) -> (r: Result<Region, ValidationError>)
        ensures
            r matches Ok(reg) ==> reg@ == region_normal(value@) && region_acceptable(
                region_normal(value@),
            ),
            r matches Err(e) ==> !region_acceptable(region_normal(value@)) && (e matches ValidationError::Region(
                v,
            ) && v@ == region_normal(value@)),
            r is Ok <==> region_acceptable(region_normal(value@)),
    {
        let t = trim(value);
        let up = to_uppercase(t.as_str());
        if utf8_len_capped(up.as_str(), 3) != 2 || !all_ascii_alphabetic(up.as_str()) {
            return Err(ValidationError::Region(up));
        }
        Ok(Region(up))
    }

    pub fn as_str(&self) -> (r: &str)
        ensures
            r@ == self@,
    {
        self.0.as_str()
    }
}

impl PartialEq for Region {
    fn eq(&self, other: &Region) -> (r: bool) {
        self.0 == other.0
    }
}

impl Eq for Region {

}

impl vstd::std_specs::cmp::PartialEqSpecImpl for Region {
    open spec fn obeys_eq_spec() -> bool {
        true
    }

    open spec fn eq_spec(&self, other: &Region) -> bool {
        self@ == other@
    }
}

// ------------------------------------------------------------------
// Language
// ------------------------------------------------------------------

#[derive(Debug, Clone, Copy, PartialEq, Eq, Structural)]
pub enum Language {
    RU,
    EN,
}

pub open spec fn language_code(l: Language) -> Seq<char> {
    match l {
        Language::RU => "ru"@,
        Language::EN => "en"@,
    }
}

/// What a language input, once ASCII-lower-cased, is read as.
pub open spec fn language_of(lower: Seq<char>) -> Option<Language> {
    if lower == "ru"@ || lower == "russian"@ {
        Some(Language::RU)
    } else if lower == "en"@ || lower == "english"@ {
        Some(Language::EN)
    } else {
        None
    }
}

impl Language {
    pub fn as_str(&self) -> (r: &'static str)
        ensures
            r@ == language_code(*self),
    {
        match self {
            Language::RU => "ru",
            Language::EN => "en",
        }
    }

    /// Parses a language name or code, case-insensitively for ASCII.
    pub fn parse(s: &str) -> (r: Result<Language, ValidationError>)
        ensures
            r matches Ok(l) ==> language_of(ascii_lower_seq(s@)) == Some(l),
            r matches Err(e) ==> language_of(ascii_lower_seq(s@)) is None && (e matches ValidationError::Language(
                v,
            ) && v@ == ascii_lower_seq(s@)),
            r is Ok <==> language_of(ascii_lower_seq(s@)) is Some,
    {
        let lower = to_ascii_lowercase(s);
        let l = lower.as_str();
        if eq_str(l, "ru") || eq_str(l, "russian") {
            Ok(Language::RU)
        } else if eq_str(l, "en") || eq_str(l, "english") {
            Ok(Language::EN)
        } else {
            Err(ValidationError::Language(lower))
        }
    }
}

impl std::str::FromStr for Language {
    type Err = ValidationError;

    fn from_str(s: &str) -> (r: Result<Self, Self::Err>)
        ensures
            r matches Ok(l) ==> language_of(ascii_lower_seq(s@)) == Some(l),
            r matches Err(e) ==> language_of(ascii_lower_seq(s@)) is None && (e matches ValidationError::Language(
                v,
            ) && v@ == ascii_lower_seq(s@)),
            r is Ok <==> language_of(ascii_lower_seq(s@)) is Some,
    {
        Language::parse(s)
    }
}

// ------------------------------------------------------------------
// UserStatus
// ------------------------------------------------------------------

#[derive(Debug, Clone, Copy, PartialEq, Eq, Structural)]
pub enum UserStatus {
    Pending,
    Verified,
    Blocked,
}

pub open spec fn status_code(s: UserStatus) -> Seq<char> {
    match s {
        UserStatus::Pending => "pending"@,
        UserStatus::Verified => "verified"@,
        UserStatus::Blocked => "blocked"@,
    }
}

pub open spec fn status_of(s: Seq<char>) -> Option<UserStatus> {
    if s == "pending"@ {
        Some(UserStatus::Pending)
    } else if s == "verified"@ {
        Some(UserStatus::Verified)
    } else if s == "blocked"@ {
        Some(UserStatus::Blocked)
    } else {
        None
    }
}

impl UserStatus {
    pub fn as_str(&self) -> (r: &'static str)
        ensures
            r@ == status_code(*self),
    {
        match self {
            UserStatus::Pending => "pending",
            UserStatus::Verified => "verified",
            UserStatus::Blocked => "blocked",
        }
    }

    /// Parses a status name, exactly as stored.
    pub fn parse(s: &str) -> (r: Result<UserStatus, ValidationError>)
        ensures
            r matches Ok(st) ==> status_of(s@) == Some(st),
            r matches Err(e) ==> status_of(s@) is None && is_custom_validation(
                e,
                "unknown user_status `"@ + s@ + "`"@,
            ),
            r is Ok <==> status_of(s@) is Some,
    {
        if eq_str(s, "pending") {
            Ok(UserStatus::Pending)
        } else if eq_str(s, "verified") {
            Ok(UserStatus::Verified)
        } else if eq_str(s, "blocked") {
            Ok(UserStatus::Blocked)
        } else {
            Err(ValidationError::Custom(concat3("unknown user_status `", s, "`")))
        }
    }
}

impl std::str::FromStr for UserStatus {
    type Err = ValidationError;

    fn from_str(s: &str) -> (r: Result<Self, Self::Err>)
        ensures
            r matches Ok(st) ==> status_of(s@) == Some(st),
            r matches Err(e) ==> status_of(s@) is None && is_custom_validation(
                e,
                "unknown user_status `"@ + s@ + "`"@,
            ),
            r is Ok <==> status_of(s@) is Some,
    {
        UserStatus::parse(s)
    }
}

/// Every status parses back from the name it is stored under.
pub proof fn lemma_status_roundtrip(st: UserStatus)
    ensures
        status_of(status_code(st)) == Some(st),
{
    reveal_strlit("pending");
    reveal_strlit("verified");
    reveal_strlit("blocked");
    let c = status_code(st);
    match st {
        UserStatus::Pending => {},
        UserStatus::Verified => {
            assert(c.len() != "pending"@.len());
        },
        UserStatus::Blocked => {
            assert(c.len() != "verified"@.len() && c[0] != "pending"@[0]);
        },
    }
}

/// Every language parses back from its code.
pub proof fn lemma_language_roundtrip(l: Language)
    ensures
        language_of(ascii_lower_seq(language_code(l))) == Some(l),
{
    reveal_strlit("ru");
    reveal_strlit("en");
    reveal_strlit("russian");
    reveal_strlit("english");
    let c = language_code(l);
    assert(ascii_lower_seq(c) =~= c);
    match l {
        Language::RU => {},
        Language::EN => {
            assert(c[0] != "ru"@[0] && c.len() != "russian"@.len());
        },
    }
}

// ------------------------------------------------------------------
// User
// ------------------------------------------------------------------

/// The minimum age, in completed years, of a registered user.
pub const DEFAULT_MINIMUM_AGE: i32 = 18;

/// Age in completed years on `today` of someone born on `dob`, both
/// given as (year, month, day).
pub open spec fn age_years(dob: (i32, u32, u32), today: (i32, u32, u32)) -> int {
    let base = today.0 - dob.0;
    if today.1 < dob.1 || (today.1 == dob.1 && today.2 < dob.2) {
        base - 1
    } else {
        base
    }
}

/// Age in completed years on day `today` of someone born on day `dob`.
pub open spec fn age_on_days(dob: int, today: int) -> int {
    age_years(calendar_ymd(dob as i32), calendar_ymd(today as i32))
}

/// Date `a` is on or after date `b`, both as (year, month, day).
pub open spec fn on_or_after(a: (int, int, int), b: (int, int, int)) -> bool {
    a.0 > b.0 || (a.0 == b.0 && (a.1 > b.1 || (a.1 == b.1 && a.2 >= b.2)))
}

/// Age counts completed years: someone born on `dob` is at least `n`
/// years old on `today` exactly when `today` is on or after their `n`-th
/// birthday (same month and day, `n` years later).
pub proof fn lemma_age_counts_completed_years(
    dob: (i32, u32, u32),
    today: (i32, u32, u32),
    n: int,
)
    ensures
        age_years(dob, today) >= n <==> on_or_after(
            (today.0 as int, today.1 as int, today.2 as int),
            (dob.0 + n, dob.1 as int, dob.2 as int),
        ),
{
}

/// A user is of age (and may register) exactly when `today` is on or
/// after the 18th birthday.
pub proof fn lemma_of_age_from_eighteenth_birthday(dob: int, today: int)
    ensures
        age_on_days(dob, today) >= DEFAULT_MINIMUM_AGE <==> on_or_after(
            (
                calendar_ymd(today as i32).0 as int,
                calendar_ymd(today as i32).1 as int,
                calendar_ymd(today as i32).2 as int,
            ),
            (
                calendar_ymd(dob as i32).0 + DEFAULT_MINIMUM_AGE,
                calendar_ymd(dob as i32).1 as int,
                calendar_ymd(dob as i32).2 as int,
            ),
        ),
{
    lemma_age_counts_completed_years(
        calendar_ymd(dob as i32),
        calendar_ymd(today as i32),
        DEFAULT_MINIMUM_AGE as int,
    );
}

/// The age in completed years on `today` of someone born on `dob`.
pub fn age_on(dob: Date, today: Date) -> (r: i32)
    ensures
        r == age_on_days(dob@, today@),
{
    let (by, bm, bd) = dob.ymd();
    let (ty, tm, td) = today.ymd();
    let mut age = ty - by;
    if tm < bm || (tm == bm && td < bd) {
        age -= 1;
    }
    age
}

/// A user as seen by contracts.
pub struct UserView {
    pub id: u128,
    pub login: Seq<char>,
    pub firstname: Seq<char>,
    pub surname: Seq<char>,
    pub email: Seq<char>,
    pub date_of_birth: int,
    pub region: Seq<char>,
    pub language: Language,
    pub status: UserStatus,
    pub is_admin: bool,
    pub last_visit_at: Option<Timestamp>,
    pub created_at: Timestamp,
    pub updated_at: Timestamp,
}

/// A registered user. Constructed through [`User::register`] for new
/// users or [`User::rehydrate`] when loaded from storage.
#[derive(Debug, Clone)]
pub struct User {
    id: u128,
    login: String,
    firstname: String,
    surname: String,
    email: String,
    date_of_birth: Date,
    region: Region,
    language: Language,
    status: UserStatus,
    is_admin: bool,
    last_visit_at: Option<Timestamp>,
    created_at: Timestamp,
    updated_at: Timestamp,
}

impl View for User {
    type V = UserView;

    closed spec fn view(&self) -> UserView {
        UserView {
            id: self.id,
            login: self.login@,
            firstname: self.firstname@,
            surname: self.surname@,
            email: self.email@,
            date_of_birth: self.date_of_birth@,
            region: self.region@,
            language: self.language,
            status: self.status,
            is_admin: self.is_admin,
            last_visit_at: self.last_visit_at,
            created_at: self.created_at,
            updated_at: self.updated_at,
        }
    }
}

/// `u` is the freshly registered user with these inputs.
pub open spec fn is_fresh_user(
    u: UserView,
    id: u128,
    login: Seq<char>,
    firstname: Seq<char>,
    surname: Seq<char>,
    email: Seq<char>,
    date_of_birth: int,
    region: Seq<char>,
    language: Language,
    now: Timestamp,
) -> bool {
    &&& u.id == id
    &&& u.login == login
    &&& u.firstname == firstname
    &&& u.surname == surname
    &&& u.email == email
    &&& u.date_of_birth == date_of_birth
    &&& u.region == region
    &&& u.language == language
    &&& u.status == UserStatus::Pending
    &&& !u.is_admin
    &&& u.last_visit_at is None
    &&& u.created_at == now
    &&& u.updated_at == now
}

/// What marking `u` verified at `now` answers, and the user afterwards:
/// only a pending user becomes verified.
pub open spec fn verification_step(u: UserView, now: Timestamp) -> (Result<(), DomainError>, UserView) {
    match u.status {
        UserStatus::Pending => (Ok(()), UserView { status: UserStatus::Verified, updated_at: now, ..u }),
        UserStatus::Verified => (Err(DomainError::AlreadyVerified), u),
        UserStatus::Blocked => (Err(DomainError::Blocked), u),
    }
}

/// The user `u` after being blocked at `now`.
pub open spec fn blocking_step(u: UserView, now: Timestamp) -> UserView {
    UserView { status: UserStatus::Blocked, updated_at: now, ..u }
}

/// Verification is one-way: a pending user is verified once, and a
/// second attempt is refused as `AlreadyVerified` and changes nothing.
pub proof fn lemma_verification_once(u: UserView, first: Timestamp, second: Timestamp)
    requires
        u.status == UserStatus::Pending,
    ensures
        verification_step(u, first).0 is Ok,
        verification_step(u, first).1.status == UserStatus::Verified,
        verification_step(verification_step(u, first).1, second) == (
            Err::<(), DomainError>(DomainError::AlreadyVerified),
            verification_step(u, first).1,
        ),
{
}

/// A blocked user stays blocked: verifying it is refused as `Blocked`
/// and changes nothing, whatever its status was before the block.
pub proof fn lemma_blocked_cannot_verify(u: UserView, blocked_at: Timestamp, later: Timestamp)
    ensures
        verification_step(blocking_step(u, blocked_at), later) == (
            Err::<(), DomainError>(DomainError::Blocked),
            blocking_step(u, blocked_at),
        ),
{
}

/// The user `u` after a visit at `now`.
pub open spec fn visit_step(u: UserView, now: Timestamp) -> UserView {
    UserView { last_visit_at: Some(now), updated_at: now, ..u }
}

/// Verifying, blocking and visiting never change who a user is: id,
/// login, e-mail, date of birth, admin flag and creation time stay.
pub proof fn lemma_steps_keep_identity(u: UserView, now: Timestamp)
    ensures
        ({
            let v = verification_step(u, now).1;
            let b = blocking_step(u, now);
            let w = visit_step(u, now);
            &&& v.id == u.id && b.id == u.id && w.id == u.id
            &&& v.login == u.login && b.login == u.login && w.login == u.login
            &&& v.email == u.email && b.email == u.email && w.email == u.email
            &&& v.date_of_birth == u.date_of_birth && b.date_of_birth == u.date_of_birth
                && w.date_of_birth == u.date_of_birth
            &&& v.is_admin == u.is_admin && b.is_admin == u.is_admin && w.is_admin == u.is_admin
            &&& v.created_at == u.created_at && b.created_at == u.created_at && w.created_at
                == u.created_at
        }),
{
}

impl User {
    /// Registers a new user with the given id, at instant `now` and
    /// calendar day `today`: status Pending, not an admin, never visited.
    /// Refused as underage when the user is younger than
    /// [`DEFAULT_MINIMUM_AGE`] on `today`.
    pub fn register_at(
        id: u128,
        now: Timestamp,
        today: Date,
        login: String,
        firstname: String,
        surname: String,
        email: String,
        date_of_birth: Date,
        region: Region,
        language: Language,
    ) -> (r: Result<User, DomainError>)
        ensures
            r is Ok <==> age_on_days(date_of_birth@, today@) >= DEFAULT_MINIMUM_AGE,
            r matches Ok(u) ==> is_fresh_user(
                u@,
                id,
                login@,
                firstname@,
                surname@,
                email@,
                date_of_birth@,
                region@,
                language,
                now,
            ),
            r matches Err(e) ==> (e matches DomainError::Underage { required, actual } && required
                == DEFAULT_MINIMUM_AGE && actual as int == age_on_days(date_of_birth@, today@)),
    {
        let user = User {
            id,
            login,
            firstname,
            surname,
            email,
            date_of_birth,
            region,
            language,
            status: UserStatus::Pending,
            is_admin: false,
            last_visit_at: None,
            created_at: now,
            updated_at: now,
        };
        let age = age_on(date_of_birth, today);
        if age < DEFAULT_MINIMUM_AGE {
            return Err(DomainError::Underage { required: DEFAULT_MINIMUM_AGE, actual: age });
        }
        Ok(user)
    }

    /// Registers a new user with a fresh id at the current instant,
    /// checking the age against today's date.
    pub fn register(
        login: String,
        firstname: String,
        surname: String,
        email: String,
        date_of_birth: Date,
        region: Region,
        language: Language,
    ) -> (r: Result<User, DomainError>)
        ensures
            r matches Ok(u) ==> is_fresh_user(
                u@,
                u@.id,
                login@,
                firstname@,
                surname@,
                email@,
                date_of_birth@,
                region@,
                language,
                u@.created_at,
            ),
            r matches Err(e) ==> (e matches DomainError::Underage { required, actual } && required
                == DEFAULT_MINIMUM_AGE && actual < DEFAULT_MINIMUM_AGE),
            exists|today: int|
                day_in_range(today) && (r is Ok <==> #[trigger] age_on_days(date_of_birth@, today)
                    >= DEFAULT_MINIMUM_AGE),
    {
        let id = new_id();
        let now = Timestamp::now();
        let today = Date::today();
        let _ = today.day_number();
        User::register_at(
            id,
            now,
            today,
            login,
            firstname,
            surname,
            email,
            date_of_birth,
            region,
            language,
        )
    }

    /// Rebuilds a user from stored fields, without validation.
    pub fn rehydrate(
        id: u128,
        login: String,
        firstname: String,
        surname: String,
        email: String,
        date_of_birth: Date,
        region: Region,
        language: Language,
        status: UserStatus,
        is_admin: bool,
        last_visit_at: Option<Timestamp>,
        created_at: Timestamp,
        updated_at: Timestamp,
    ) -> (u: User)
        ensures
            u@ == (UserView {
                id,
                login: login@,
                firstname: firstname@,
                surname: surname@,
                email: email@,
                date_of_birth: date_of_birth@,
                region: region@,
                language,
                status,
                is_admin,
                last_visit_at,
                created_at,
                updated_at,
            }),
    {
        User {
            id,
            login,
            firstname,
            surname,
            email,
            date_of_birth,
            region,
            language,
            status,
            is_admin,
            last_visit_at,
            created_at,
            updated_at,
        }
    }

    pub fn id(&self) -> (r: u128)
        ensures
            r == self@.id,
    {
        self.id
    }

    pub fn login(&self) -> (r: &str)
        ensures
            r@ == self@.login,
    {
        self.login.as_str()
    }

    pub fn firstname(&self) -> (r: &str)
        ensures
            r@ == self@.firstname,
    {
        self.firstname.as_str()
    }

    pub fn surname(&self) -> (r: &str)
        ensures
            r@ == self@.surname,
    {
        self.surname.as_str()
    }

    pub fn email(&self) -> (r: &str)
        ensures
            r@ == self@.email,
    {
        self.email.as_str()
    }

    pub fn date_of_birth(&self) -> (r: Date)
        ensures
            r@ == self@.date_of_birth,
    {
        self.date_of_birth
    }

    pub fn region(&self) -> (r: &Region)
        ensures
            r@ == self@.region,
    {
        &self.region
    }

    pub fn language(&self) -> (r: Language)
        ensures
            r == self@.language,
    {
        self.language
    }

    pub fn status(&self) -> (r: UserStatus)
        ensures
            r == self@.status,
    {
        self.status
    }

    pub fn is_admin(&self) -> (r: bool)
        ensures
            r == self@.is_admin,
    {
        self.is_admin
    }

    pub fn last_visit_at(&self) -> (r: Option<Timestamp>)
        ensures
            r == self@.last_visit_at,
    {
        self.last_visit_at
    }

    pub fn created_at(&self) -> (r: Timestamp)
        ensures
            r == self@.created_at,
    {
        self.created_at
    }

    pub fn updated_at(&self) -> (r: Timestamp)
        ensures
            r == self@.updated_at,
    {
        self.updated_at
    }

    /// The user's age in completed years on `today`.
    pub fn age_on(&self, today: Date) -> (r: i32)
        ensures
            r == age_on_days(self@.date_of_birth, today@),
    {
        age_on(self.date_of_birth, today)
    }

    /// The user's age in completed years today (UTC).
    pub fn age(&self) -> (r: i32)
        ensures
            exists|today: int| day_in_range(today) && r == age_on_days(self@.date_of_birth, today),
    {
        let today = Date::today();
        let _ = today.day_number();
        self.age_on(today)
    }

    /// True iff the user is at least [`DEFAULT_MINIMUM_AGE`] on `today`.
    pub fn is_of_legal_age_on(&self, today: Date) -> (r: bool)
        ensures
            r == (age_on_days(self@.date_of_birth, today@) >= DEFAULT_MINIMUM_AGE),
    {
        self.age_on(today) >= DEFAULT_MINIMUM_AGE
    }

    /// True iff the user is at least [`DEFAULT_MINIMUM_AGE`] today (UTC).
    pub fn is_of_legal_age(&self) -> (r: bool)
        ensures
            exists|today: int|
                day_in_range(today) && r == (age_on_days(self@.date_of_birth, today)
                    >= DEFAULT_MINIMUM_AGE),
    {
        self.age() >= DEFAULT_MINIMUM_AGE
    }

    pub fn is_verified(&self) -> (r: bool)
        ensures
            r == (self@.status == UserStatus::Verified),
    {
        self.status == UserStatus::Verified
    }

    pub fn is_blocked(&self) -> (r: bool)
        ensures
            r == (self@.status == UserStatus::Blocked),
    {
        self.status == UserStatus::Blocked
    }

    /// Pending -> Verified, stamping `now` as the update time. A verified
    /// user answers `AlreadyVerified`, a blocked one `Blocked`; neither
    /// changes.
    pub fn mark_verified_at(&mut self, now: Timestamp) -> (r: Result<(), DomainError>)
        ensures
            (r, final(self)@) == verification_step(old(self)@, now),
            old(self)@.status == UserStatus::Pending ==> r is Ok && final(self)@ == (UserView {
                status: UserStatus::Verified,
                updated_at: now,
                ..old(self)@
            }),
            old(self)@.status == UserStatus::Verified ==> r == Err::<(), DomainError>(
                DomainError::AlreadyVerified,
            ) && final(self)@ == old(self)@,
            old(self)@.status == UserStatus::Blocked ==> r == Err::<(), DomainError>(
                DomainError::Blocked,
            ) && final(self)@ == old(self)@,
    {
        match self.status {
            UserStatus::Pending => {
                self.status = UserStatus::Verified;
                self.updated_at = now;
                Ok(())
            },
            UserStatus::Verified => Err(DomainError::AlreadyVerified),
            UserStatus::Blocked => Err(DomainError::Blocked),
        }
    }

    /// Pending -> Verified at the current instant; see
    /// [`User::mark_verified_at`].
    pub fn mark_verified(&mut self) -> (r: Result<(), DomainError>)
        ensures
            old(self)@.status == UserStatus::Pending ==> r is Ok && final(self)@ == (UserView {
                status: UserStatus::Verified,
                updated_at: final(self)@.updated_at,
                ..old(self)@
            }),
            old(self)@.status == UserStatus::Verified ==> r == Err::<(), DomainError>(
                DomainError::AlreadyVerified,
            ) && final(self)@ == old(self)@,
            old(self)@.status == UserStatus::Blocked ==> r == Err::<(), DomainError>(
                DomainError::Blocked,
            ) && final(self)@ == old(self)@,
    {
        let now = Timestamp::now();
        self.mark_verified_at(now)
    }

    /// Records a visit at `now`.
    pub fn touch_visit_at(&mut self, now: Timestamp)
        ensures
            final(self)@ == visit_step(old(self)@, now),
            final(self)@ == (UserView {
                last_visit_at: Some(now),
                updated_at: now,
                ..old(self)@
            }),
    {
        self.last_visit_at = Some(now);
        self.updated_at = now;
    }

    /// Records a visit at the current instant.
    pub fn touch_visit(&mut self)
        ensures
            final(self)@ == (UserView {
                last_visit_at: Some(final(self)@.updated_at),
                updated_at: final(self)@.updated_at,
                ..old(self)@
            }),
    {
        let now = Timestamp::now();
        self.touch_visit_at(now);
    }

    /// Blocks the user, whatever the current status, at `now`.
    pub fn block_at(&mut self, now: Timestamp)
        ensures
            final(self)@ == blocking_step(old(self)@, now),
            final(self)@ == (UserView { status: UserStatus::Blocked, updated_at: now, ..old(self)@ }),
    {
        self.status = UserStatus::Blocked;
        self.updated_at = now;
    }

    /// Blocks the user at the current instant.
    pub fn block(&mut self)
        ensures
            final(self)@ == (UserView {
                status: UserStatus::Blocked,
                updated_at: final(self)@.updated_at,
                ..old(self)@
            }),
    {
        let now = Timestamp::now();
        self.block_at(now);
    }
}

} // verus!
