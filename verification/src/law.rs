//! Laws: versioned legal documents, their taxonomy of categories and
//! their closed vocabulary of tags.

use vstd::prelude::*;
use crate::clock::{new_id, Date, Timestamp};
use crate::errors::{fails, fails_v, is_custom_validation, DomainError, ValidationError};
use crate::text::{
    concat3, eq_str, is_blank, lemma_split_nonempty, owned, split_char, split_seq, trim, trim_seq,
    utf8_len, utf8_len_capped, views,
};
use crate::user::User;

verus! {

// ------------------------------------------------------------------
// LawTag
// ------------------------------------------------------------------

#[derive(Debug, Clone, Copy, PartialEq, Eq, Structural, Hash)]
pub enum LawTag {
    Transport,
    Carry,
    Storage,
    Hunting,
    SelfDefense,
    Sport,
    License,
    Inheritance,
    Inspection,
    Penalty,
    Other,
}

pub open spec fn law_tag_code(t: LawTag) -> Seq<char> {
    match t {
        LawTag::Transport => "transport"@,
        LawTag::Carry => "carry"@,
        LawTag::Storage => "storage"@,
        LawTag::Hunting => "hunting"@,
        LawTag::SelfDefense => "self_defense"@,
        LawTag::Sport => "sport"@,
        LawTag::License => "license"@,
        LawTag::Inheritance => "inheritance"@,
        LawTag::Inspection => "inspection"@,
        LawTag::Penalty => "penalty"@,
        LawTag::Other => "other"@,
    }
}

/// The tag named by a code, matched exactly.
pub open spec fn law_tag_of(s: Seq<char>) -> Option<LawTag> {
    if s == "transport"@ {
        Some(LawTag::Transport)
    } else if s == "carry"@ {
        Some(LawTag::Carry)
    } else if s == "storage"@ {
        Some(LawTag::Storage)
    } else if s == "hunting"@ {
        Some(LawTag::Hunting)
    } else if s == "self_defense"@ {
        Some(LawTag::SelfDefense)
    } else if s == "sport"@ {
        Some(LawTag::Sport)
    } else if s == "license"@ {
        Some(LawTag::License)
    } else if s == "inheritance"@ {
        Some(LawTag::Inheritance)
    } else if s == "inspection"@ {
        Some(LawTag::Inspection)
    } else if s == "penalty"@ {
        Some(LawTag::Penalty)
    } else if s == "other"@ {
        Some(LawTag::Other)
    } else {
        None
    }
}

impl LawTag {
    pub fn as_str(&self) -> (r: &'static str)
        ensures
            r@ == law_tag_code(*self),
    {
        match self {
            LawTag::Transport => "transport",
            LawTag::Carry => "carry",
            LawTag::Storage => "storage",
            LawTag::Hunting => "hunting",
            LawTag::SelfDefense => "self_defense",
            LawTag::Sport => "sport",
            LawTag::License => "license",
            LawTag::Inheritance => "inheritance",
            LawTag::Inspection => "inspection",
            LawTag::Penalty => "penalty",
            LawTag::Other => "other",
        }
    }

    /// Parses a tag code, exactly as written.
    pub fn parse(s: &str) -> (r: Result<LawTag, ValidationError>)
        ensures
            r matches Ok(t) ==> law_tag_of(s@) == Some(t),
            r matches Err(e) ==> law_tag_of(s@) is None && is_custom_validation(
                e,
                "unknown law tag `"@ + s@ + "`"@,
            ),
            r is Ok <==> law_tag_of(s@) is Some,
    {
        if eq_str(s, "transport") {
            Ok(LawTag::Transport)
        } else if eq_str(s, "carry") {
            Ok(LawTag::Carry)
        } else if eq_str(s, "storage") {
            Ok(LawTag::Storage)
        } else if eq_str(s, "hunting") {
            Ok(LawTag::Hunting)
        } else if eq_str(s, "self_defense") {
            Ok(LawTag::SelfDefense)
        } else if eq_str(s, "sport") {
            Ok(LawTag::Sport)
        } else if eq_str(s, "license") {
            Ok(LawTag::License)
        } else if eq_str(s, "inheritance") {
            Ok(LawTag::Inheritance)
        } else if eq_str(s, "inspection") {
            Ok(LawTag::Inspection)
        } else if eq_str(s, "penalty") {
            Ok(LawTag::Penalty)
        } else if eq_str(s, "other") {
            Ok(LawTag::Other)
        } else {
            Err(ValidationError::Custom(concat3("unknown law tag `", s, "`")))
        }
    }
}

impl std::str::FromStr for LawTag {
    type Err = ValidationError;

    fn from_str(s: &str) -> (r: Result<Self, Self::Err>)
        ensures
            r matches Ok(t) ==> law_tag_of(s@) == Some(t),
            r matches Err(e) ==> law_tag_of(s@) is None && is_custom_validation(
                e,
                "unknown law tag `"@ + s@ + "`"@,
            ),
            r is Ok <==> law_tag_of(s@) is Some,
    {
        LawTag::parse(s)
    }
}

/// Every tag parses back from its code.
pub proof fn lemma_law_tag_roundtrip(t: LawTag)
    ensures
        law_tag_of(law_tag_code(t)) == Some(t),
{
    reveal_strlit("transport");
    reveal_strlit("carry");
    reveal_strlit("storage");
    reveal_strlit("hunting");
    reveal_strlit("self_defense");
    reveal_strlit("sport");
    reveal_strlit("license");
    reveal_strlit("inheritance");
    reveal_strlit("inspection");
    reveal_strlit("penalty");
    reveal_strlit("other");
    let c = law_tag_code(t);
    match t {
        LawTag::Transport => {},
        LawTag::Carry => {
            assert(c.len() != "transport"@.len());
        },
        LawTag::Storage => {
            assert(c.len() != "transport"@.len() && c.len() != "carry"@.len());
        },
        LawTag::Hunting => {
            assert(c.len() != "transport"@.len() && c.len() != "carry"@.len() && c[0]
                != "storage"@[0]);
        },
        LawTag::SelfDefense => {
            assert(c.len() != "transport"@.len() && c.len() != "carry"@.len() && c.len()
                != "storage"@.len() && c.len() != "hunting"@.len());
        },
        LawTag::Sport => {
            assert(c.len() != "transport"@.len() && c[0] != "carry"@[0] && c.len()
                != "storage"@.len() && c.len() != "hunting"@.len() && c.len()
                != "self_defense"@.len());
        },
        LawTag::License => {
            assert(c.len() != "transport"@.len() && c.len() != "carry"@.len() && c[0]
                != "storage"@[0] && c[0] != "hunting"@[0] && c.len() != "self_defense"@.len()
                && c.len() != "sport"@.len());
        },
        LawTag::Inheritance => {
            assert(c.len() != "transport"@.len() && c.len() != "carry"@.len() && c.len()
                != "storage"@.len() && c.len() != "hunting"@.len() && c.len()
                != "self_defense"@.len() && c.len() != "sport"@.len() && c.len()
                != "license"@.len());
        },
        LawTag::Inspection => {
            assert(c.len() != "transport"@.len() && c.len() != "carry"@.len() && c.len()
                != "storage"@.len() && c.len() != "hunting"@.len() && c.len()
                != "self_defense"@.len() && c.len() != "sport"@.len() && c.len()
                != "license"@.len() && c.len() != "inheritance"@.len());
        },
        LawTag::Penalty => {
            assert(c.len() != "transport"@.len() && c.len() != "carry"@.len() && c[0]
                != "storage"@[0] && c[0] != "hunting"@[0] && c.len() != "self_defense"@.len()
                && c.len() != "sport"@.len() && c[0] != "license"@[0] && c.len()
                != "inheritance"@.len() && c.len() != "inspection"@.len());
        },
        LawTag::Other => {
            assert(c.len() != "transport"@.len() && c[0] != "carry"@[0] && c.len()
                != "storage"@.len() && c.len() != "hunting"@.len() && c.len()
                != "self_defense"@.len() && c[0] != "sport"@[0] && c.len() != "license"@.len()
                && c.len() != "inheritance"@.len() && c.len() != "inspection"@.len() && c.len()
                != "penalty"@.len());
        },
    }
}

// ------------------------------------------------------------------
// Tag lists
// ------------------------------------------------------------------

/// The tags named by comma-separated pieces: each piece trimmed, empty
/// pieces skipped and unknown names dropped.
pub open spec fn tag_list(pieces: Seq<Seq<char>>) -> Seq<LawTag>
    decreases pieces.len(),
{
    if pieces.len() == 0 {
        Seq::empty()
    } else {
        let rest = tag_list(pieces.drop_last());
        let t = trim_seq(pieces.last());
        if t.len() == 0 {
            rest
        } else {
            match law_tag_of(t) {
                Some(tag) => rest.push(tag),
                None => rest,
            }
        }
    }
}

/// Parses a comma-separated tag list, silently dropping unknown values.
pub fn parse_tags_csv(s: Option<&str>) -> (r: Vec<LawTag>)
    ensures
        s is None ==> r@ == Seq::<LawTag>::empty(),
        s matches Some(x) ==> r@ == tag_list(split_seq(x@, ',')),
{
    let x = match s {
        Some(x) => x,
        None => {
            return Vec::new();
        },
    };
    let pieces = split_char(x, ',');
    let mut out: Vec<LawTag> = Vec::new();
    let mut i: usize = 0;
    while i < pieces.len()
        invariant
            i <= pieces.len(),
            views(pieces@) == split_seq(x@, ','),
            out@ == tag_list(views(pieces@).take(i as int)),
        decreases pieces.len() - i,
    {
        let t = trim(pieces[i].as_str());
        let ghost before = views(pieces@).take(i as int);
        assert(views(pieces@).take(i + 1).drop_last() =~= before);
        assert(views(pieces@).take(i + 1).last() == pieces@[i as int]@);
        if !t.as_str().is_empty() {
            match LawTag::parse(t.as_str()) {
                Ok(tag) => {
                    out.push(tag);
                },
                Err(_) => {},
            }
        }
        i += 1;
    }
    assert(views(pieces@).take(pieces@.len() as int) =~= views(pieces@));
    out
}

// ------------------------------------------------------------------
// LawCategory
// ------------------------------------------------------------------

#[derive(Debug, Clone)]
pub struct LawCategory {
    pub id: u128,
    pub code: String,
    pub name: String,
    pub parent_id: Option<u128>,
    pub sort_order: i32,
    pub created_at: Timestamp,
    pub updated_at: Timestamp,
}

impl LawCategory {
    /// A category with the given id, created at `now`; code and name must
    /// not be blank and are stored trimmed.
    pub fn new_at(
        id: u128,
        now: Timestamp,
        code: String,
        name: String,
        parent_id: Option<u128>,
        sort_order: i32,
    ) -> (r: Result<LawCategory, ValidationError>)
        ensures
            r is Ok <==> !(is_blank(code@) || is_blank(name@)),
            r is Err ==> fails_v(r, "code and name are required"@),
            r matches Ok(c) ==> c.id == id && c.code@ == trim_seq(code@) && c.name@ == trim_seq(
                name@,
            ) && c.parent_id == parent_id && c.sort_order == sort_order && c.created_at == now
                && c.updated_at == now,
    {
        let c = trim(code.as_str());
        let n = trim(name.as_str());
        if c.as_str().is_empty() || n.as_str().is_empty() {
            return Err(ValidationError::custom("code and name are required"));
        }
        Ok(LawCategory { id, code: c, name: n, parent_id, sort_order, created_at: now, updated_at: now })
    }

    /// A category with a fresh id, created now; see [`LawCategory::new_at`].
    pub fn new(code: String, name: String, parent_id: Option<u128>, sort_order: i32) -> (r: Result<
        LawCategory,
        ValidationError,
    >)
        ensures
            r is Ok <==> !(is_blank(code@) || is_blank(name@)),
            r is Err ==> fails_v(r, "code and name are required"@),
            r matches Ok(c) ==> c.code@ == trim_seq(code@) && c.name@ == trim_seq(name@)
                && c.parent_id == parent_id && c.sort_order == sort_order && c.created_at
                == c.updated_at,
    {
        LawCategory::new_at(new_id(), Timestamp::now(), code, name, parent_id, sort_order)
    }
}

/// The input of the create-category use case.
#[derive(Debug)]
pub struct CreateCategoryInput {
    pub code: String,
    pub name: String,
    pub parent_id: Option<u128>,
    pub sort_order: i32,
}

/// The input of the update-category use case; `None` leaves a field
/// alone.
#[derive(Debug, Default)]
pub struct UpdateCategoryInput {
    pub code: Option<String>,
    pub name: Option<String>,
    pub parent_id: Option<Option<u128>>,
    pub sort_order: Option<i32>,
}

pub open spec fn pick<T>(new: Option<T>, old: T) -> T {
    match new {
        Some(v) => v,
        None => old,
    }
}

/// Applies an admin's update to a category at `now`: given fields replace
/// the stored ones as they are, and `updated_at` becomes `now`.
pub fn apply_category_update(c: &mut LawCategory, input: UpdateCategoryInput, now: Timestamp)
    ensures
        final(c).id == old(c).id,
        final(c).code == pick(input.code, old(c).code),
        final(c).name == pick(input.name, old(c).name),
        final(c).parent_id == pick(input.parent_id, old(c).parent_id),
        final(c).sort_order == pick(input.sort_order, old(c).sort_order),
        final(c).created_at == old(c).created_at,
        final(c).updated_at == now,
{
    let UpdateCategoryInput { code, name, parent_id, sort_order } = input;
    if let Some(v) = code {
        c.code = v;
    }
    if let Some(v) = name {
        c.name = v;
    }
    if let Some(v) = parent_id {
        c.parent_id = v;
    }
    if let Some(v) = sort_order {
        c.sort_order = v;
    }
    c.updated_at = now;
}

// ------------------------------------------------------------------
// Law
// ------------------------------------------------------------------

#[derive(Debug, Clone)]
pub struct Law {
    pub id: u128,
    pub law_key: String,
    pub title: String,
    pub summary: Option<String>,
    pub body: String,
    pub region: String,
    pub category_id: Option<u128>,
    pub tags: Vec<LawTag>,
    pub current_version: i32,
    pub effective_at: Date,
    pub created_at: Timestamp,
    pub updated_at: Timestamp,
}

/// The first check a new law fails, as its message; `None` when it passes.
pub open spec fn law_fault(
    law_key: Seq<char>,
    title: Seq<char>,
    body: Seq<char>,
    region: Seq<char>,
) -> Option<Seq<char>> {
    if is_blank(law_key) {
        Some("law_key is required"@)
    } else if is_blank(title) {
        Some("title is required"@)
    } else if is_blank(body) {
        Some("body is required"@)
    } else if is_blank(region) {
        Some("region is required"@)
    } else {
        None
    }
}

impl Law {
    /// A law with the given id, created at `now`, at version 1. Key,
    /// title, body and region must not be blank; key, title and region are
    /// stored trimmed, the body as given.
    pub fn new_at(
        id: u128,
        now: Timestamp,
        law_key: String,
        title: String,
        summary: Option<String>,
        body: String,
        region: String,
        category_id: Option<u128>,
        tags: Vec<LawTag>,
        effective_at: Date,
    ) -> (r: Result<Law, ValidationError>)
        ensures
            r is Ok <==> law_fault(law_key@, title@, body@, region@) is None,
            r is Err ==> fails_v(r, law_fault(law_key@, title@, body@, region@)->0),
            r matches Ok(l) ==> l.id == id && l.law_key@ == trim_seq(law_key@) && l.title@
                == trim_seq(title@) && l.summary == summary && l.body == body && l.region@
                == trim_seq(region@) && l.category_id == category_id && l.tags@ == tags@
                && l.current_version == 1 && l.effective_at == effective_at && l.created_at == now
                && l.updated_at == now,
    {
        let k = trim(law_key.as_str());
        if k.as_str().is_empty() {
            return Err(ValidationError::custom("law_key is required"));
        }
        let t = trim(title.as_str());
        if t.as_str().is_empty() {
            return Err(ValidationError::custom("title is required"));
        }
        if trim(body.as_str()).as_str().is_empty() {
            return Err(ValidationError::custom("body is required"));
        }
        let reg = trim(region.as_str());
        if reg.as_str().is_empty() {
            return Err(ValidationError::custom("region is required"));
        }
        Ok(Law {
            id,
            law_key: k,
            title: t,
            summary,
            body,
            region: reg,
            category_id,
            tags,
            current_version: 1,
            effective_at,
            created_at: now,
            updated_at: now,
        })
    }

    /// A law with a fresh id, created now; see [`Law::new_at`].
    pub fn new(
        law_key: String,
        title: String,
        summary: Option<String>,
        body: String,
        region: String,
        category_id: Option<u128>,
        tags: Vec<LawTag>,
        effective_at: Date,
    ) -> (r: Result<Law, ValidationError>)
        ensures
            r is Ok <==> law_fault(law_key@, title@, body@, region@) is None,
            r is Err ==> fails_v(r, law_fault(law_key@, title@, body@, region@)->0),
            r matches Ok(l) ==> l.law_key@ == trim_seq(law_key@) && l.title@ == trim_seq(title@)
                && l.summary == summary && l.body == body && l.region@ == trim_seq(region@)
                && l.category_id == category_id && l.tags@ == tags@ && l.current_version == 1
                && l.effective_at == effective_at && l.created_at == l.updated_at,
    {
        Law::new_at(
            new_id(),
            Timestamp::now(),
            law_key,
            title,
            summary,
            body,
            region,
            category_id,
            tags,
            effective_at,
        )
    }
}

/// A historical snapshot of a law.
#[derive(Debug, Clone)]
pub struct LawVersion {
    pub id: u128,
    pub law_id: u128,
    pub law_key: String,
    pub version: i32,
    pub title: String,
    pub summary: Option<String>,
    pub body: String,
    pub tags: Vec<LawTag>,
    pub category_id: Option<u128>,
    pub effective_at: Date,
    pub snapshot_at: Timestamp,
}

/// The input of the create-law use case.
#[derive(Debug)]
pub struct CreateLawInput {
    pub law_key: String,
    pub title: String,
    pub summary: Option<String>,
    pub body: String,
    pub region: String,
    pub category_id: Option<u128>,
    pub tags: Vec<LawTag>,
    pub effective_at: Date,
}

/// The input of the update-law-by-key use case.
#[derive(Debug)]
pub struct UpdateLawByKeyInput {
    pub law_key: String,
    pub title: String,
    pub summary: Option<String>,
    pub body: String,
    pub region: String,
    pub category_id: Option<u128>,
    pub tags: Vec<LawTag>,
    pub effective_at: Date,
}

/// List filters for laws.
#[derive(Debug, Clone, Default)]
pub struct LawFilter {
    pub region: Option<String>,
    pub category_id: Option<u128>,
    pub any_tags: Vec<LawTag>,
    pub all_tags: Vec<LawTag>,
    pub updated_after: Option<Timestamp>,
    pub effective_after: Option<Date>,
}

/// Search queries may have at most this many bytes once trimmed.
pub const MAX_SEARCH_QUERY_BYTES: usize = 512;

/// The search use case's check of a free-text query: trimmed, it must not
/// be empty nor longer than [`MAX_SEARCH_QUERY_BYTES`]; the trimmed query
/// is what is searched for.
pub fn validate_search_query(query_text: &str) -> (r: Result<String, DomainError>)
    ensures
        trim_seq(query_text@).len() == 0 ==> fails(r, "search query cannot be empty"@),
        trim_seq(query_text@).len() != 0 && utf8_len(trim_seq(query_text@))
            > MAX_SEARCH_QUERY_BYTES ==> fails(r, "search query too long (>512 chars)"@),
        r is Ok <==> trim_seq(query_text@).len() != 0 && utf8_len(trim_seq(query_text@))
            <= MAX_SEARCH_QUERY_BYTES,
        r matches Ok(q) ==> q@ == trim_seq(query_text@),
{
    let trimmed = trim(query_text);
    if trimmed.as_str().is_empty() {
        return Err(DomainError::custom("search query cannot be empty"));
    }
    if utf8_len_capped(trimmed.as_str(), MAX_SEARCH_QUERY_BYTES + 1) > MAX_SEARCH_QUERY_BYTES {
        return Err(DomainError::custom("search query too long (>512 chars)"));
    }
    Ok(trimmed)
}

/// The parameters of "what changed since": the explicit `since`, else the
/// user's last visit, else the account's creation; the explicit region,
/// else the user's.
pub fn changes_since_params(since: Option<Timestamp>, region: Option<String>, user: &User) -> (r: (
    Timestamp,
    String,
))
    ensures
        r.0 == (match since {
            Some(s) => s,
            None => match user@.last_visit_at {
                Some(v) => v,
                None => user@.created_at,
            },
        }),
        r.1@ == (match region {
            Some(reg) => reg@,
            None => user@.region,
        }),
{
    let s = match since {
        Some(s) => s,
        None => match user.last_visit_at() {
            Some(v) => v,
            None => user.created_at(),
        },
    };
    let reg = match region {
        Some(r) => r,
        None => owned(user.region().as_str()),
    };
    (s, reg)
}

/// The region a law gets when the request names none.
pub fn default_region() -> (r: String)
    ensures
        r@ == "RU"@,
{
    owned("RU")
}

} // verus!
