//! Text primitives shared by the validators: whitespace trimming, ASCII
//! case mapping, splitting on a separator and decimal rendering, each
//! stated over the `Seq<char>` view of the strings involved.

use vstd::prelude::*;
use vstd::string::*;
use vstd::utf8::*;

verus! {

/// `String::push` from std: appends `c` at the end of `s`.
#[verifier::external_body]
pub(crate) fn push_char(s: &mut String, c: char)
    ensures
        final(s)@ == old(s)@.push(c),
{
    s.push(c);
}

/// `str::to_uppercase` from std: the Unicode upper-case mapping, which
/// may change the number of characters (`ß` becomes `SS`).
pub uninterp spec fn unicode_upper(s: Seq<char>) -> Seq<char>;

/// `str::to_uppercase` from std. The contract names the result only; the
/// Unicode case tables are not restated here.
#[verifier::external_body]
pub(crate) fn to_uppercase(s: &str) -> (r: String)
    ensures
        r@ == unicode_upper(s@),
{
    s.to_uppercase()
}

/// A string literal or slice copied into an owned `String`.
pub fn owned(s: &str) -> (r: String)
    ensures
        r@ == s@,
{
    s.to_owned()
}

/// The chars of `s`, in order.
pub fn chars_of(s: &str) -> (v: Vec<char>)
    ensures
        v@ == s@,
{
    let mut v: Vec<char> = Vec::new();
    for c in it: s.chars()
        invariant
            v@ == it.seq().take(it.index() as int),
    {
        v.push(c);
    }
    v
}

/// The string made of `v[from..to]`.
pub fn string_from_range(v: &Vec<char>, from: usize, to: usize) -> (s: String)
    requires
        from <= to <= v.len(),
    ensures
        s@ == v@.subrange(from as int, to as int),
{
    let mut s = String::new();
    let mut i = from;
    while i < to
        invariant
            from <= i <= to <= v.len(),
            s@ == v@.subrange(from as int, i as int),
        decreases to - i,
    {
        push_char(&mut s, v[i]);
        assert(v@.subrange(from as int, i + 1) =~= v@.subrange(from as int, i as int).push(v@[i as int]));
        i += 1;
    }
    s
}

/// The string made of all of `v`.
pub fn string_from_chars(v: &Vec<char>) -> (s: String)
    ensures
        s@ == v@,
{
    let s = string_from_range(v, 0, v.len());
    assert(v@.subrange(0, v@.len() as int) =~= v@);
    s
}


/// `a`, `b` and `c`, in that order.
pub fn concat3(a: &str, b: &str, c: &str) -> (r: String)
    ensures
        r@ == a@ + b@ + c@,
{
    let mut r = owned(a);
    r.append(b);
    r.append(c);
    r
}

// ------------------------------------------------------------------
// Whitespace and trimming
// ------------------------------------------------------------------

/// The Unicode `White_Space` property, which is what `char::is_whitespace`
/// and `str::trim` go by.
pub open spec fn is_white_space(c: char) -> bool {
    let u = c as u32;
    ||| (0x9 <= u && u <= 0xD)
    ||| u == 0x20
    ||| u == 0x85
    ||| u == 0xA0
    ||| u == 0x1680
    ||| (0x2000 <= u && u <= 0x200A)
    ||| u == 0x2028
    ||| u == 0x2029
    ||| u == 0x202F
    ||| u == 0x205F
    ||| u == 0x3000
}

pub fn char_is_white_space(c: char) -> (r: bool)
    ensures
        r == is_white_space(c),
{
    let u = c as u32;
    (0x9 <= u && u <= 0xD) || u == 0x20 || u == 0x85 || u == 0xA0 || u == 0x1680 || (0x2000 <= u
        && u <= 0x200A) || u == 0x2028 || u == 0x2029 || u == 0x202F || u == 0x205F || u == 0x3000
}

/// `s` without its leading white space.
pub open spec fn trim_start_seq(s: Seq<char>) -> Seq<char>
    decreases s.len(),
{
    if s.len() > 0 && is_white_space(s[0]) {
        trim_start_seq(s.drop_first())
    } else {
        s
    }
}

/// `s` without its trailing white space.
pub open spec fn trim_end_seq(s: Seq<char>) -> Seq<char>
    decreases s.len(),
{
    if s.len() > 0 && is_white_space(s.last()) {
        trim_end_seq(s.drop_last())
    } else {
        s
    }
}

/// `s` without leading and trailing white space (`str::trim`).
pub open spec fn trim_seq(s: Seq<char>) -> Seq<char> {
    trim_end_seq(trim_start_seq(s))
}

/// A string that is empty once trimmed.
pub open spec fn is_blank(s: Seq<char>) -> bool {
    trim_seq(s).len() == 0
}

proof fn lemma_trim_start(s: Seq<char>, i: int)
    requires
        0 <= i <= s.len(),
        forall|k: int| 0 <= k < i ==> is_white_space(#[trigger] s[k]),
        i == s.len() || !is_white_space(s[i]),
    ensures
        trim_start_seq(s) == s.skip(i),
    decreases i,
{
    if i == 0 {
        assert(s.skip(0) =~= s);
    } else {
        let t = s.drop_first();
        assert forall|k: int| 0 <= k < i - 1 implies is_white_space(#[trigger] t[k]) by {
            assert(t[k] == s[k + 1]);
        }
        if i - 1 < t.len() {
            assert(t[i - 1] == s[i]);
        }
        lemma_trim_start(t, i - 1);
        assert(t.skip(i - 1) =~= s.skip(i));
    }
}

proof fn lemma_trim_end(s: Seq<char>, j: int)
    requires
        0 <= j <= s.len(),
        forall|k: int| j <= k < s.len() ==> is_white_space(#[trigger] s[k]),
        j == 0 || !is_white_space(s[j - 1]),
    ensures
        trim_end_seq(s) == s.take(j),
    decreases s.len() - j,
{
    if j == s.len() {
        assert(s.take(j) =~= s);
    } else {
        let t = s.drop_last();
        assert forall|k: int| j <= k < t.len() implies is_white_space(#[trigger] t[k]) by {
            assert(t[k] == s[k]);
        }
        if j > 0 {
            assert(t[j - 1] == s[j - 1]);
        }
        lemma_trim_end(t, j);
        assert(t.take(j) =~= s.take(j));
    }
}

/// `str::trim`, returned as an owned string.
pub fn trim(s: &str) -> (r: String)
    ensures
        r@ == trim_seq(s@),
{
    let v = chars_of(s);
    let n = v.len();
    let mut i: usize = 0;
    while i < n && char_is_white_space(v[i])
        invariant
            i <= n == v.len(),
            forall|k: int| 0 <= k < i ==> is_white_space(#[trigger] v@[k]),
        decreases n - i,
    {
        i += 1;
    }
    proof {
        lemma_trim_start(v@, i as int);
    }
    let mut j: usize = n;
    while j > i && char_is_white_space(v[j - 1])
        invariant
            i <= j <= n == v.len(),
            forall|k: int| j <= k < n ==> is_white_space(#[trigger] v@[k]),
        decreases j,
    {
        j -= 1;
    }
    proof {
        let t = v@.skip(i as int);
        assert forall|k: int| j - i <= k < t.len() implies is_white_space(#[trigger] t[k]) by {
            assert(t[k] == v@[k + i]);
        }
        if j > i {
            assert(t[j - i - 1] == v@[j - 1]);
        }
        lemma_trim_end(t, j - i);
        assert(t.take(j - i) =~= v@.subrange(i as int, j as int));
    }
    string_from_range(&v, i, j)
}

/// True iff `s` is empty once trimmed.
pub fn blank(s: &str) -> (r: bool)
    ensures
        r == is_blank(s@),
{
    let t = trim(s);
    t.as_str().is_empty()
}

// ------------------------------------------------------------------
// UTF-8 length
// ------------------------------------------------------------------

/// The number of bytes of the UTF-8 encoding of `s` (`str::len`).
pub open spec fn utf8_len(s: Seq<char>) -> nat {
    encode_utf8(s).len()
}

/// The number of bytes `c` takes in UTF-8.
pub open spec fn char_width(c: char) -> nat {
    let u = c as u32;
    if u <= 0x7F {
        1
    } else if u <= 0x7FF {
        2
    } else if u <= 0xFFFF {
        3
    } else {
        4
    }
}

proof fn lemma_scalar_width(c: char)
    ensures
        encode_scalar(c as u32).len() == char_width(c),
{
    char_is_scalar(c);
}

proof fn lemma_utf8_len_push(s: Seq<char>, c: char)
    ensures
        utf8_len(s.push(c)) == utf8_len(s) + char_width(c),
    decreases s.len(),
{
    if s.len() == 0 {
        lemma_scalar_width(c);
        assert(seq![c].drop_first() =~= Seq::<char>::empty());
        assert(s.push(c) =~= seq![c]);
        assert(encode_utf8(Seq::<char>::empty()) =~= Seq::<u8>::empty());
        assert(encode_utf8(seq![c]) == encode_scalar(seq![c][0] as u32) + encode_utf8(
            seq![c].drop_first(),
        ));
        assert(utf8_len(s) == 0);
    } else {
        lemma_utf8_len_push(s.drop_first(), c);
        assert(s.push(c).drop_first() =~= s.drop_first().push(c));
        assert(s.push(c)[0] == s[0]);
    }
}

proof fn lemma_utf8_len_prefix(s: Seq<char>, i: int, j: int)
    requires
        0 <= i <= j <= s.len(),
    ensures
        utf8_len(s.take(i)) <= utf8_len(s.take(j)),
    decreases j - i,
{
    if i < j {
        lemma_utf8_len_prefix(s, i, j - 1);
        lemma_utf8_len_push(s.take(j - 1), s[j - 1]);
        assert(s.take(j - 1).push(s[j - 1]) =~= s.take(j));
    }
}

/// `min(s.len(), cap)`, the UTF-8 byte length of `s` cut off at `cap`.
pub fn utf8_len_capped(s: &str, cap: usize) -> (r: usize)
    ensures
        r == if utf8_len(s@) < cap {
            utf8_len(s@)
        } else {
            cap as nat
        },
{
    let v = chars_of(s);
    if cap == 0 {
        return 0;
    }
    let mut acc: usize = 0;
    let mut i: usize = 0;
    assert(v@.take(0) =~= Seq::<char>::empty());
    while i < v.len()
        invariant
            i <= v.len(),
            v@ == s@,
            acc == utf8_len(v@.take(i as int)),
            acc < cap,
        decreases v.len() - i,
    {
        let u = v[i] as u32;
        let w: usize = if u <= 0x7F {
            1
        } else if u <= 0x7FF {
            2
        } else if u <= 0xFFFF {
            3
        } else {
            4
        };
        proof {
            lemma_utf8_len_push(v@.take(i as int), v@[i as int]);
            assert(v@.take(i as int).push(v@[i as int]) =~= v@.take(i + 1));
        }
        if w >= cap - acc {
            proof {
                lemma_utf8_len_prefix(v@, i + 1, v@.len() as int);
                assert(v@.take(v@.len() as int) =~= v@);
            }
            return cap;
        }
        acc = acc + w;
        i += 1;
    }
    assert(v@.take(v@.len() as int) =~= v@);
    acc
}

// ------------------------------------------------------------------
// ASCII classes and case mapping
// ------------------------------------------------------------------

pub open spec fn is_ascii_upper(c: char) -> bool {
    'A' <= c && c <= 'Z'
}

pub open spec fn is_ascii_lower(c: char) -> bool {
    'a' <= c && c <= 'z'
}

pub open spec fn is_ascii_digit(c: char) -> bool {
    '0' <= c && c <= '9'
}

pub open spec fn is_ascii_alphabetic(c: char) -> bool {
    is_ascii_upper(c) || is_ascii_lower(c)
}

pub open spec fn is_ascii_alphanumeric(c: char) -> bool {
    is_ascii_alphabetic(c) || is_ascii_digit(c)
}

pub fn char_is_ascii_alphabetic(c: char) -> (r: bool)
    ensures
        r == is_ascii_alphabetic(c),
{
    ('A' <= c && c <= 'Z') || ('a' <= c && c <= 'z')
}

pub fn char_is_ascii_alphanumeric(c: char) -> (r: bool)
    ensures
        r == is_ascii_alphanumeric(c),
{
    ('A' <= c && c <= 'Z') || ('a' <= c && c <= 'z') || ('0' <= c && c <= '9')
}

/// `char::to_ascii_lowercase`: `A`..`Z` become `a`..`z`, every other
/// char is unchanged.
pub open spec fn ascii_lower_char(c: char) -> char {
    if is_ascii_upper(c) {
        (((c as u8) + 32) as u8) as char
    } else {
        c
    }
}

/// `str::to_ascii_lowercase`.
pub open spec fn ascii_lower_seq(s: Seq<char>) -> Seq<char> {
    s.map_values(|c: char| ascii_lower_char(c))
}

pub fn lower_char(c: char) -> (r: char)
    ensures
        r == ascii_lower_char(c),
{
    if 'A' <= c && c <= 'Z' {
        (((c as u8) + 32) as u8) as char
    } else {
        c
    }
}

/// `str::to_ascii_lowercase`.
pub fn to_ascii_lowercase(s: &str) -> (r: String)
    ensures
        r@ == ascii_lower_seq(s@),
{
    let v = chars_of(s);
    let mut r = String::new();
    let mut i: usize = 0;
    while i < v.len()
        invariant
            i <= v.len(),
            v@ == s@,
            r@ == ascii_lower_seq(v@.take(i as int)),
        decreases v.len() - i,
    {
        let c = lower_char(v[i]);
        push_char(&mut r, c);
        assert(ascii_lower_seq(v@.take(i + 1)) =~= ascii_lower_seq(v@.take(i as int)).push(c));
        i += 1;
    }
    assert(v@.take(v.len() as int) =~= v@);
    r
}

/// True iff `c` occurs in `s`.
pub fn contains_char(s: &str, c: char) -> (r: bool)
    ensures
        r == s@.contains(c),
{
    let v = chars_of(s);
    let mut i: usize = 0;
    while i < v.len()
        invariant
            i <= v.len(),
            v@ == s@,
            forall|k: int| 0 <= k < i ==> v@[k] != c,
        decreases v.len() - i,
    {
        if v[i] == c {
            assert(s@[i as int] == c);
            return true;
        }
        i += 1;
    }
    false
}

/// `a == b` on string slices.
pub fn eq_str(a: &str, b: &str) -> (r: bool)
    ensures
        r == (a@ == b@),
{
    let x = chars_of(a);
    let y = chars_of(b);
    if x.len() != y.len() {
        return false;
    }
    let mut i: usize = 0;
    while i < x.len()
        invariant
            i <= x.len() == y.len(),
            x@ == a@,
            y@ == b@,
            forall|k: int| 0 <= k < i ==> x@[k] == y@[k],
        decreases x.len() - i,
    {
        if x[i] != y[i] {
            return false;
        }
        i += 1;
    }
    assert(x@ =~= y@);
    true
}

/// `str::strip_prefix`: what follows `prefix` in `s`, if `s` starts with
/// it.
pub fn strip_prefix(s: &str, prefix: &str) -> (r: Option<String>)
    ensures
        r is Some <==> prefix@.is_prefix_of(s@),
        r matches Some(rest) ==> rest@ == s@.skip(prefix@.len() as int),
{
    let x = chars_of(s);
    let p = chars_of(prefix);
    if p.len() > x.len() {
        return None;
    }
    let mut i: usize = 0;
    while i < p.len()
        invariant
            i <= p.len() <= x.len(),
            x@ == s@,
            p@ == prefix@,
            forall|k: int| 0 <= k < i ==> x@[k] == p@[k],
        decreases p.len() - i,
    {
        if x[i] != p[i] {
            return None;
        }
        i += 1;
    }
    let rest = string_from_range(&x, p.len(), x.len());
    assert(s@.skip(p.len() as int) =~= x@.subrange(p.len() as int, x.len() as int));
    Some(rest)
}

/// Every char of `s` is an ASCII letter.
pub fn all_ascii_alphabetic(s: &str) -> (r: bool)
    ensures
        r == (forall|i: int| 0 <= i < s@.len() ==> is_ascii_alphabetic(#[trigger] s@[i])),
{
    let v = chars_of(s);
    let mut i: usize = 0;
    while i < v.len()
        invariant
            i <= v.len(),
            v@ == s@,
            forall|k: int| 0 <= k < i ==> is_ascii_alphabetic(#[trigger] v@[k]),
        decreases v.len() - i,
    {
        if !char_is_ascii_alphabetic(v[i]) {
            return false;
        }
        i += 1;
    }
    true
}

// ------------------------------------------------------------------
// Splitting
// ------------------------------------------------------------------

/// The views of a sequence of strings.
pub open spec fn views(v: Seq<String>) -> Seq<Seq<char>> {
    v.map_values(|x: String| x@)
}

/// `str::split(sep)`: the pieces between the occurrences of `sep`; there is
/// always one more piece than there are separators.
pub open spec fn split_seq(s: Seq<char>, sep: char) -> Seq<Seq<char>>
    decreases s.len(),
{
    if s.len() == 0 {
        seq![Seq::empty()]
    } else {
        let p = split_seq(s.drop_last(), sep);
        if s.last() == sep {
            p.push(Seq::empty())
        } else {
            p.update(p.len() - 1, p.last().push(s.last()))
        }
    }
}

pub proof fn lemma_split_nonempty(s: Seq<char>, sep: char)
    ensures
        split_seq(s, sep).len() >= 1,
    decreases s.len(),
{
    if s.len() > 0 {
        lemma_split_nonempty(s.drop_last(), sep);
    }
}

/// Appending text without the separator extends the last piece.
pub proof fn lemma_split_extend(p: Seq<char>, q: Seq<char>, sep: char)
    requires
        !q.contains(sep),
    ensures
        split_seq(p + q, sep) == split_seq(p, sep).update(
            split_seq(p, sep).len() - 1,
            split_seq(p, sep).last() + q,
        ),
    decreases q.len(),
{
    lemma_split_nonempty(p, sep);
    if q.len() == 0 {
        assert(p + q =~= p);
        assert(split_seq(p, sep).last() + q =~= split_seq(p, sep).last());
        assert(split_seq(p, sep).update(split_seq(p, sep).len() - 1, split_seq(p, sep).last())
            =~= split_seq(p, sep));
    } else {
        let q0 = q.drop_last();
        assert(!q0.contains(sep)) by {
            if q0.contains(sep) {
                let k = choose|k: int| 0 <= k < q0.len() && q0[k] == sep;
                assert(q[k] == sep);
            }
        }
        assert(q.last() != sep) by {
            assert(q[q.len() - 1] == q.last());
        }
        lemma_split_extend(p, q0, sep);
        assert((p + q).drop_last() =~= p + q0);
        assert((p + q).last() == q.last());
        lemma_split_nonempty(p + q0, sep);
        assert(split_seq(p, sep).last() + q0 + seq![q.last()] =~= split_seq(p, sep).last() + q);
        assert((split_seq(p, sep).last() + q0).push(q.last()) =~= split_seq(p, sep).last() + q);
    }
}

/// Appending the separator starts a new, empty piece.
pub proof fn lemma_split_sep(p: Seq<char>, sep: char)
    ensures
        split_seq(p.push(sep), sep) == split_seq(p, sep).push(Seq::empty()),
{
    assert(p.push(sep).drop_last() =~= p);
}

/// Text without the separator is a single piece.
pub proof fn lemma_split_single(q: Seq<char>, sep: char)
    requires
        !q.contains(sep),
    ensures
        split_seq(q, sep) == seq![q],
{
    lemma_split_extend(Seq::empty(), q, sep);
    assert(Seq::<char>::empty() + q =~= q);
    assert(seq![Seq::<char>::empty()].update(0, Seq::<char>::empty() + q) =~= seq![q]);
}

/// Three separator-free parts joined by the separator split back into
/// those three parts.
pub proof fn lemma_split_three(a: Seq<char>, b: Seq<char>, c: Seq<char>, sep: char)
    requires
        !a.contains(sep),
        !b.contains(sep),
        !c.contains(sep),
    ensures
        split_seq(a + seq![sep] + b + seq![sep] + c, sep) == seq![a, b, c],
{
    lemma_split_single(a, sep);
    lemma_split_sep(a, sep);
    assert(a + seq![sep] =~= a.push(sep));
    lemma_split_extend(a.push(sep), b, sep);
    assert(seq![a].push(Seq::<char>::empty()).update(1, Seq::<char>::empty() + b) =~= seq![a, b]);
    let ab = a.push(sep) + b;
    lemma_split_sep(ab, sep);
    lemma_split_extend(ab.push(sep), c, sep);
    assert(seq![a, b].push(Seq::<char>::empty()).update(2, Seq::<char>::empty() + c) =~= seq![
        a,
        b,
        c,
    ]);
    assert(ab.push(sep) + c =~= a + seq![sep] + b + seq![sep] + c);
}

/// `str::split(sep)`, collected into owned strings.
pub fn split_char(s: &str, sep: char) -> (r: Vec<String>)
    ensures
        views(r@) == split_seq(s@, sep),
{
    let v = chars_of(s);
    let mut pieces: Vec<String> = Vec::new();
    let mut cur: Vec<char> = Vec::new();
    let mut i: usize = 0;
    while i < v.len()
        invariant
            i <= v.len(),
            v@ == s@,
            views(pieces@).push(cur@) == split_seq(v@.take(i as int), sep),
        decreases v.len() - i,
    {
        let c = v[i];
        let ghost before = v@.take(i as int);
        assert(v@.take(i + 1).drop_last() =~= before);
        assert(v@.take(i + 1).last() == c);
        proof {
            lemma_split_nonempty(before, sep);
        }
        if c == sep {
            let piece = string_from_chars(&cur);
            pieces.push(piece);
            cur = Vec::new();
            assert(views(pieces@) =~= views(pieces@.drop_last()).push(piece@));
        } else {
            cur.push(c);
            assert(views(pieces@).push(cur@) =~= split_seq(before, sep).update(
                split_seq(before, sep).len() - 1,
                split_seq(before, sep).last().push(c),
            ));
        }
        i += 1;
    }
    let last = string_from_chars(&cur);
    pieces.push(last);
    assert(v@.take(v.len() as int) =~= v@);
    assert(views(pieces@) =~= views(pieces@.drop_last()).push(last@));
    pieces
}

// ------------------------------------------------------------------
// Decimal rendering
// ------------------------------------------------------------------

pub open spec fn digit_char(d: nat) -> char {
    (((d % 10) + 48) as u8) as char
}

/// The decimal digits of `n`, most significant first, without leading zeros.
pub open spec fn digits_of(n: nat) -> Seq<char>
    decreases n,
{
    if n < 10 {
        seq![digit_char(n)]
    } else {
        digits_of(n / 10).push(digit_char(n % 10))
    }
}

/// How `{}` renders an integer: an optional minus sign and the digits.
pub open spec fn decimal(n: int) -> Seq<char> {
    if n < 0 {
        seq!['-'] + digits_of((-n) as nat)
    } else {
        digits_of(n as nat)
    }
}

fn push_digits(m: u64, s: &mut String)
    ensures
        final(s)@ == old(s)@ + digits_of(m as nat),
    decreases m,
{
    if m >= 10 {
        push_digits(m / 10, s);
    }
    let d = ((m % 10) as u8 + 48u8) as char;
    push_char(s, d);
    proof {
        if m < 10 {
            assert(old(s)@.push(d) =~= old(s)@ + seq![d]);
        } else {
            assert(old(s)@ + digits_of((m / 10) as nat) + seq![d] =~= old(s)@ + digits_of(
                (m / 10) as nat,
            ).push(d));
            assert((old(s)@ + digits_of((m / 10) as nat)).push(d) =~= old(s)@ + digits_of(
                (m / 10) as nat,
            ).push(d));
        }
    }
}

/// `n.to_string()` for a signed integer.
pub fn i64_to_decimal(n: i64) -> (s: String)
    ensures
        s@ == decimal(n as int),
{
    let mut s = String::new();
    if n < 0 {
        push_char(&mut s, '-');
        let m: u64 = (0i128 - (n as i128)) as u64;
        push_digits(m, &mut s);
    } else {
        push_digits(n as u64, &mut s);
        assert(Seq::<char>::empty() + digits_of(n as nat) =~= digits_of(n as nat));
    }
    s
}

} // verus!
