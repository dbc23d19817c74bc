//! Identity value objects: validated [`Password`], [`Email`] and [`Login`],
//! the session [`Token`] (`ident.exp.sig`, the first two parts in
//! URL-safe base64) and the stored [`Credentials`].

use vstd::prelude::*;
use crate::base64::{
    decode_str, decode_text, encode_seq, encode_str, encode_text, lemma_decode_encode_text,
    lemma_encode_symbols,
};
use crate::clock::Timestamp;
use crate::errors::ValidationError;
use crate::text::{
    ascii_lower_seq, char_is_ascii_alphanumeric, concat3, is_ascii_alphabetic, is_ascii_alphanumeric,
    is_ascii_lower, is_ascii_upper, lemma_split_three,
    owned, split_char, split_seq, to_ascii_lowercase, trim, trim_seq, utf8_len, utf8_len_capped,
    views,
};

verus! {

// ------------------------------------------------------------------
// Regular expressions
// ------------------------------------------------------------------

/// Whether the regex crate's `Regex::new(pattern)` compiles and its
/// `is_match` finds a match in `text` (false when the pattern does not
/// compile).
pub uninterp spec fn regex_matches(pattern: Seq<char>, text: Seq<char>) -> bool;

/// `text` has an ASCII upper-case letter: what `[A-Z]` finds.
pub open spec fn has_ascii_upper(text: Seq<char>) -> bool {
    exists|i: int| 0 <= i < text.len() && is_ascii_upper(#[trigger] text[i])
}

/// `text` has an ASCII lower-case letter: what `[a-z]` finds.
pub open spec fn has_ascii_lower(text: Seq<char>) -> bool {
    exists|i: int| 0 <= i < text.len() && is_ascii_lower(#[trigger] text[i])
}

/// The characters of [`SPECIAL_PATTERN`]'s class.
pub open spec fn is_special_char(c: char) -> bool {
    "!@#$%^&*(),.?:;{}|<>-_+=/\\[]'~`"@.contains(c)
}

/// `text` has a special character: what [`SPECIAL_PATTERN`] finds.
pub open spec fn has_special(text: Seq<char>) -> bool {
    exists|i: int| 0 <= i < text.len() && is_special_char(#[trigger] text[i])
}

/// A character of the local part `[A-Za-z0-9._%+\-]`.
pub open spec fn is_local_char(c: char) -> bool {
    is_ascii_alphanumeric(c) || c == '.' || c == '_' || c == '%' || c == '+' || c == '-'
}

/// A character of the domain part `[A-Za-z0-9.\-]`.
pub open spec fn is_domain_char(c: char) -> bool {
    is_ascii_alphanumeric(c) || c == '.' || c == '-'
}

/// `t[from..to]` is non-empty and made of characters satisfying `p`.
pub open spec fn run_of(t: Seq<char>, from: int, to: int, p: spec_fn(char) -> bool) -> bool {
    &&& 0 <= from < to <= t.len()
    &&& forall|k: int| from <= k < to ==> p(#[trigger] t[k])
}

/// `t` matches the whole of [`EMAIL_PATTERN`]: local part, `@`, domain,
/// `.`, then at least two ASCII letters to the end.
pub open spec fn email_shape(t: Seq<char>) -> bool {
    exists|at: int, dot: int|
        #![trigger t[at], t[dot]]
        {
            &&& run_of(t, 0, at, |c: char| is_local_char(c))
            &&& t[at] == '@'
            &&& run_of(t, at + 1, dot, |c: char| is_domain_char(c))
            &&& t[dot] == '.'
            &&& dot + 3 <= t.len()
            &&& run_of(t, dot + 1, t.len() as int, |c: char| is_ascii_alphabetic(c))
        }
}

/// regex `Regex::new(pattern)` then `is_match(text)`; the answer is named
/// by `regex_matches` of the pattern and the text. For the four fixed
/// patterns below that are character classes or a plain anchored
/// sequence, the contract also says what the answer is; the Unicode class
/// `\d` is left to the name.
#[verifier::external_body]
fn regex_is_match(pattern: &str, text: &str) -> (r: bool)
    ensures
        r == regex_matches(pattern@, text@),
        pattern@ == UPPER_PATTERN@ ==> (r <==> has_ascii_upper(text@)),
        pattern@ == LOWER_PATTERN@ ==> (r <==> has_ascii_lower(text@)),
        pattern@ == SPECIAL_PATTERN@ ==> (r <==> has_special(text@)),
        pattern@ == EMAIL_PATTERN@ ==> (r <==> email_shape(text@)),
{
    regex::Regex::new(pattern).map(|re| re.is_match(text)).unwrap_or(false)
}

/// A password must contain a digit.
pub const DIGIT_PATTERN: &'static str = r"\d";

/// A password must contain an upper-case ASCII letter.
pub const UPPER_PATTERN: &'static str = r"[A-Z]";

/// A password must contain a lower-case ASCII letter.
pub const LOWER_PATTERN: &'static str = r"[a-z]";

/// A password must contain one of these special characters.
pub const SPECIAL_PATTERN: &'static str = r"[!@#$%^&*(),.?:;{}|<>\-_+=/\\\[\]'~`]";

/// The shape of an e-mail address.
pub const EMAIL_PATTERN: &'static str = r"^[A-Za-z0-9._%+\-]+@[A-Za-z0-9.\-]+\.[A-Za-z]{2,}$";

// ------------------------------------------------------------------
// Password
// ------------------------------------------------------------------

/// What the password policy says of `s`: the first rule it breaks, in
/// the order length (8..=128 bytes), digit, upper case, lower case,
/// special character; `None` when it passes.
pub open spec fn password_fault(s: Seq<char>) -> Option<ValidationError> {
    if utf8_len(s) < 8 {
        Some(ValidationError::PasswordTooShort)
    } else if utf8_len(s) > 128 {
        Some(ValidationError::PasswordTooLong)
    } else if !regex_matches(DIGIT_PATTERN@, s) {
        Some(ValidationError::PasswordNoDigit)
    } else if !has_ascii_upper(s) {
        Some(ValidationError::PasswordNoUppercase)
    } else if !has_ascii_lower(s) {
        Some(ValidationError::PasswordNoLowercase)
    } else if !has_special(s) {
        Some(ValidationError::PasswordNoSpecial)
    } else {
        None
    }
}

/// A password that has passed the strength policy. It has no `Debug`
/// and no `==`, so it cannot be logged or compared by accident.
pub struct Password(String);

impl View for Password {
    type V = Seq<char>;

    closed spec fn view(&self) -> Seq<char> {
        self.0@
    }
}

impl Password {
    fn validate(s: &str) -> (r: Result<(), ValidationError>)
        ensures
            r matches Err(e) ==> password_fault(s@) == Some(e),
            r is Ok <==> password_fault(s@) is None,
    {
        let len = utf8_len_capped(s, 129);
        if len < 8 {
            return Err(ValidationError::PasswordTooShort);
        }
        if len > 128 {
            return Err(ValidationError::PasswordTooLong);
        }
        if !regex_is_match(DIGIT_PATTERN, s) {
            return Err(ValidationError::PasswordNoDigit);
        }
        if !regex_is_match(UPPER_PATTERN, s) {
            return Err(ValidationError::PasswordNoUppercase);
        }
        if !regex_is_match(LOWER_PATTERN, s) {
            return Err(ValidationError::PasswordNoLowercase);
        }
        if !regex_is_match(SPECIAL_PATTERN, s) {
            return Err(ValidationError::PasswordNoSpecial);
        }
        Ok(())
    }

    /// Accepts `raw` if it passes the policy.
    pub fn new(raw: String) -> (r: Result<Password, ValidationError>)
        ensures
            r matches Ok(p) ==> p@ == raw@ && password_fault(raw@) is None,
            r matches Err(e) ==> password_fault(raw@) == Some(e),
            r is Ok <==> password_fault(raw@) is None,
    {
        match Password::validate(raw.as_str()) {
            Ok(()) => Ok(Password(raw)),
            Err(e) => Err(e),
        }
    }

    /// Accepts `raw` if it passes the policy (for fixtures).
    pub fn parse(raw: &str) -> (r: Result<Password, ValidationError>)
        ensures
            r matches Ok(p) ==> p@ == raw@ && password_fault(raw@) is None,
            r matches Err(e) ==> password_fault(raw@) == Some(e),
            r is Ok <==> password_fault(raw@) is None,
    {
        Password::new(owned(raw))
    }

    pub fn expose(&self) -> (r: &str)
        ensures
            r@ == self@,
    {
        self.0.as_str()
    }
}

// ------------------------------------------------------------------
// Email
// ------------------------------------------------------------------

/// An address is accepted iff, once trimmed, it has the e-mail shape and
/// at most 254 bytes.
pub open spec fn email_acceptable(trimmed: Seq<char>) -> bool {
    email_shape(trimmed) && utf8_len(trimmed) <= 254
}

/// A validated e-mail address, trimmed and ASCII-lower-cased.
#[derive(Debug, Clone)]
pub struct Email(String);

impl View for Email {
    type V = Seq<char>;

    closed spec fn view(&self) -> Seq<char> {
        self.0@
    }
}

impl Email {
    pub fn parse(raw: &str) -> (r: Result<Email, ValidationError>)
        ensures
            r matches Ok(e) ==> e@ == ascii_lower_seq(trim_seq(raw@)),
            r matches Err(e) ==> e == ValidationError::Email,
            r is Ok <==> email_acceptable(trim_seq(raw@)),
    {
        let t = trim(raw);
        if !regex_is_match(EMAIL_PATTERN, t.as_str()) || utf8_len_capped(t.as_str(), 255) > 254 {
            return Err(ValidationError::Email);
        }
        Ok(Email(to_ascii_lowercase(t.as_str())))
    }

    pub fn as_str(&self) -> (r: &str)
        ensures
            r@ == self@,
    {
        self.0.as_str()
    }

    pub fn into_string(self) -> (r: String)
        ensures
            r@ == self@,
    {
        self.0
    }
}

impl PartialEq for Email {
    fn eq(&self, other: &Email) -> (r: bool) {
        self.0 == other.0
    }
}

impl Eq for Email {

}

impl vstd::std_specs::cmp::PartialEqSpecImpl for Email {
    open spec fn obeys_eq_spec() -> bool {
        true
    }

    open spec fn eq_spec(&self, other: &Email) -> bool {
        self@ == other@
    }
}

// ------------------------------------------------------------------
// Login
// ------------------------------------------------------------------

/// A login is accepted iff, once trimmed, it is 3..=64 bytes of ASCII
/// letters, digits and underscores.
pub open spec fn login_acceptable(t: Seq<char>) -> bool {
    &&& 3 <= utf8_len(t) <= 64
    &&& forall|i: int| 0 <= i < t.len() ==> is_login_char(#[trigger] t[i])
}

pub open spec fn is_login_char(c: char) -> bool {
    is_ascii_alphanumeric(c) || c == '_'
}

/// A validated login, trimmed.
#[derive(Debug, Clone)]
pub struct Login(String);

impl View for Login {
    type V = Seq<char>;

    closed spec fn view(&self) -> Seq<char> {
        self.0@
    }
}

fn all_login_chars(s: &str) -> (r: bool)
    ensures
        r == (forall|i: int| 0 <= i < s@.len() ==> is_login_char(#[trigger] s@[i])),
{
    let v = crate::text::chars_of(s);
    let mut i: usize = 0;
    while i < v.len()
        invariant
            i <= v.len(),
            v@ == s@,
            forall|k: int| 0 <= k < i ==> is_login_char(#[trigger] v@[k]),
        decreases v.len() - i,
    {
        if !(char_is_ascii_alphanumeric(v[i]) || v[i] == '_') {
            return false;
        }
        i += 1;
    }
    true
}

impl Login {
    pub fn parse(raw: &str) -> (r: Result<Login, ValidationError>)
        ensures
            r matches Ok(l) ==> l@ == trim_seq(raw@),
            r matches Err(e) ==> e == ValidationError::Login,
            r is Ok <==> login_acceptable(trim_seq(raw@)),
    {
        let t = trim(raw);
        let len = utf8_len_capped(t.as_str(), 65);
        if len < 3 || len > 64 || !all_login_chars(t.as_str()) {
            return Err(ValidationError::Login);
        }
        Ok(Login(t))
    }

    pub fn as_str(&self) -> (r: &str)
        ensures
            r@ == self@,
    {
        self.0.as_str()
    }

    pub fn into_string(self) -> (r: String)
        ensures
            r@ == self@,
    {
        self.0
    }
}

impl PartialEq for Login {
    fn eq(&self, other: &Login) -> (r: bool) {
        self.0 == other.0
    }
}

impl Eq for Login {

}

impl vstd::std_specs::cmp::PartialEqSpecImpl for Login {
    open spec fn obeys_eq_spec() -> bool {
        true
    }

    open spec fn eq_spec(&self, other: &Login) -> bool {
        self@ == other@
    }
}

// ------------------------------------------------------------------
// Token
// ------------------------------------------------------------------

/// An opaque session token: the session id, the expiry (RFC 3339) and
/// the base64url signature over them.
#[derive(Debug, Clone)]
pub struct Token {
    pub ident: String,
    pub exp: String,
    pub sign_b64u: String,
}

/// Why a token string was refused.
#[derive(Debug, Clone, Copy, PartialEq, Eq, Structural)]
pub enum TokenParseError {
    /// The string does not have exactly three `.`-separated segments.
    Segments,
    /// A segment is not base64url-encoded UTF-8.
    Encoding,
}

/// The wire form of a token with these parts.
pub open spec fn token_text(ident: Seq<char>, exp: Seq<char>, sign: Seq<char>) -> Seq<char> {
    encode_text(ident) + seq!['.'] + encode_text(exp) + seq!['.'] + sign
}

/// What a token string parses to: (ident, exp, signature), or the reason
/// it is refused.
pub open spec fn token_parse(s: Seq<char>) -> Result<
    (Seq<char>, Seq<char>, Seq<char>),
    TokenParseError,
> {
    let p = split_seq(s, '.');
    if p.len() != 3 {
        Err(TokenParseError::Segments)
    } else {
        match (decode_text(p[0]), decode_text(p[1])) {
            (Some(a), Some(b)) => Ok((a, b, p[2])),
            _ => Err(TokenParseError::Encoding),
        }
    }
}

impl Token {
    /// The wire form `b64(ident).b64(exp).sign`.
    pub fn to_string(&self) -> (r: String)
        ensures
            r@ == token_text(self.ident@, self.exp@, self.sign_b64u@),
    {
        let a = encode_str(self.ident.as_str());
        let b = encode_str(self.exp.as_str());
        let mut r = concat3(a.as_str(), ".", b.as_str());
        r.append(".");
        r.append(self.sign_b64u.as_str());
        proof {
            reveal_strlit(".");
            assert(r@ =~= token_text(self.ident@, self.exp@, self.sign_b64u@));
        }
        r
    }

    /// Parses the wire form.
    pub fn parse_token(s: &str) -> (r: Result<Token, TokenParseError>)
        ensures
            r matches Ok(t) ==> token_parse(s@) == Ok::<_, TokenParseError>(
                (t.ident@, t.exp@, t.sign_b64u@),
            ),
            r matches Err(e) ==> token_parse(s@) == Err::<(Seq<char>, Seq<char>, Seq<char>), _>(e),
    {
        let parts = split_char(s, '.');
        if parts.len() != 3 {
            return Err(TokenParseError::Segments);
        }
        assert(parts@[0]@ == split_seq(s@, '.')[0]);
        assert(parts@[1]@ == split_seq(s@, '.')[1]);
        assert(parts@[2]@ == split_seq(s@, '.')[2]);
        let ident = match decode_str(parts[0].as_str()) {
            Some(x) => x,
            None => {
                return Err(TokenParseError::Encoding);
            },
        };
        let exp = match decode_str(parts[1].as_str()) {
            Some(x) => x,
            None => {
                return Err(TokenParseError::Encoding);
            },
        };
        let sign_b64u = parts[2].clone();
        Ok(Token { ident, exp, sign_b64u })
    }
}

/// A token written out and parsed again is the same token, as long as its
/// signature has no `.` in it (a base64url signature never has).
pub proof fn lemma_token_roundtrip(ident: Seq<char>, exp: Seq<char>, sign: Seq<char>)
    requires
        !sign.contains('.'),
    ensures
        token_parse(token_text(ident, exp, sign)) == Ok::<_, TokenParseError>((ident, exp, sign)),
{
    lemma_decode_encode_text(ident);
    lemma_decode_encode_text(exp);
    lemma_split_three(encode_text(ident), encode_text(exp), sign, '.');
}

/// A token whose signature is base64url-encoded bytes always reads back
/// as the same token.
pub proof fn lemma_signed_token_roundtrip(ident: Seq<char>, exp: Seq<char>, signature: Seq<u8>)
    ensures
        token_parse(token_text(ident, exp, encode_seq(signature))) == Ok::<_, TokenParseError>(
            (ident, exp, encode_seq(signature)),
        ),
{
    lemma_encode_symbols(signature);
    lemma_token_roundtrip(ident, exp, encode_seq(signature));
}

impl std::str::FromStr for Token {
    type Err = TokenParseError;

    fn from_str(s: &str) -> (r: Result<Self, Self::Err>)
        ensures
            r matches Ok(t) ==> token_parse(s@) == Ok::<_, TokenParseError>(
                (t.ident@, t.exp@, t.sign_b64u@),
            ),
            r matches Err(e) ==> token_parse(s@) == Err::<(Seq<char>, Seq<char>, Seq<char>), _>(e),
    {
        Token::parse_token(s)
    }
}

impl PartialEq for Token {
    fn eq(&self, other: &Token) -> (r: bool) {
        self.ident == other.ident && self.exp == other.exp && self.sign_b64u == other.sign_b64u
    }
}

impl Eq for Token {

}

impl vstd::std_specs::cmp::PartialEqSpecImpl for Token {
    open spec fn obeys_eq_spec() -> bool {
        true
    }

    open spec fn eq_spec(&self, other: &Token) -> bool {
        self.ident@ == other.ident@ && self.exp@ == other.exp@ && self.sign_b64u@
            == other.sign_b64u@
    }
}

// ------------------------------------------------------------------
// Credentials
// ------------------------------------------------------------------

/// What is stored beside a user: the password hash and the last visit.
#[derive(Debug, Clone)]
pub struct Credentials {
    password_hash: String,
    last_visit: Timestamp,
}

impl Credentials {
    /// Credentials for `password_hash`, visited at `now`.
    pub fn new_at(password_hash: String, now: Timestamp) -> (c: Credentials)
        ensures
            c.password_hash_view() == password_hash@,
            c.last_visit_value() == now,
    {
        Credentials { password_hash, last_visit: now }
    }

    /// Credentials for `password_hash`, visited now.
    pub fn new(password_hash: String) -> (c: Credentials)
        ensures
            c.password_hash_view() == password_hash@,
    {
        Credentials::new_at(password_hash, Timestamp::now())
    }

    pub closed spec fn password_hash_view(&self) -> Seq<char> {
        self.password_hash@
    }

    pub closed spec fn last_visit_value(&self) -> Timestamp {
        self.last_visit
    }

    pub fn password_hash(&self) -> (r: &str)
        ensures
            r@ == self.password_hash_view(),
    {
        self.password_hash.as_str()
    }

    pub fn last_visit(&self) -> (r: Timestamp)
        ensures
            r == self.last_visit_value(),
    {
        self.last_visit
    }
}

} // verus!
