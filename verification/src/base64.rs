//! URL-safe base64 without padding (RFC 4648 §5), the encoding that
//! session tokens and token hashes are written in.
//!
//! Decoding is strict: only the 64 URL-safe symbols are accepted, a
//! length of 1 modulo 4 is refused, and so are set bits in the unused
//! tail of the last symbol. `decode(encode(b)) == b` for every byte string.

use vstd::prelude::*;
use vstd::utf8::*;
use crate::text::{chars_of, push_char};

verus! {

/// The symbol for the six-bit value `v`.
pub open spec fn symbol(v: u8) -> char {
    if v < 26 {
        ((65 + v) as u8) as char
    } else if v < 52 {
        ((97 + (v - 26)) as u8) as char
    } else if v < 62 {
        ((48 + (v - 52)) as u8) as char
    } else if v == 62 {
        '-'
    } else {
        '_'
    }
}

/// The six-bit value of a symbol, if `c` is one.
pub open spec fn symbol_value(c: char) -> Option<u8> {
    if 'A' <= c && c <= 'Z' {
        Some(((c as u32) - 65) as u8)
    } else if 'a' <= c && c <= 'z' {
        Some(((c as u32) - 97 + 26) as u8)
    } else if '0' <= c && c <= '9' {
        Some(((c as u32) - 48 + 52) as u8)
    } else if c == '-' {
        Some(62u8)
    } else if c == '_' {
        Some(63u8)
    } else {
        None
    }
}

pub open spec fn is_symbol(c: char) -> bool {
    symbol_value(c) is Some
}

pub open spec fn enc3(b0: u8, b1: u8, b2: u8) -> Seq<char> {
    seq![
        symbol(b0 >> 2),
        symbol(((b0 & 3) << 4) | (b1 >> 4)),
        symbol(((b1 & 15) << 2) | (b2 >> 6)),
        symbol(b2 & 63),
    ]
}

pub open spec fn enc2(b0: u8, b1: u8) -> Seq<char> {
    seq![symbol(b0 >> 2), symbol(((b0 & 3) << 4) | (b1 >> 4)), symbol((b1 & 15) << 2)]
}

pub open spec fn enc1(b0: u8) -> Seq<char> {
    seq![symbol(b0 >> 2), symbol((b0 & 3) << 4)]
}

/// The encoding of `b`: four symbols for every three bytes, then three
/// symbols for two remaining bytes or two for one.
pub open spec fn encode_seq(b: Seq<u8>) -> Seq<char>
    decreases b.len(),
{
    if b.len() == 0 {
        Seq::empty()
    } else if b.len() == 1 {
        enc1(b[0])
    } else if b.len() == 2 {
        enc2(b[0], b[1])
    } else {
        enc3(b[0], b[1], b[2]) + encode_seq(b.skip(3))
    }
}

pub open spec fn dec4(s: Seq<char>) -> Option<Seq<u8>> {
    match (symbol_value(s[0]), symbol_value(s[1]), symbol_value(s[2]), symbol_value(s[3])) {
        (Some(c0), Some(c1), Some(c2), Some(c3)) => Some(
            seq![
                ((c0 << 2) | (c1 >> 4)) as u8,
                (((c1 & 15) << 4) | (c2 >> 2)) as u8,
                (((c2 & 3) << 6) | c3) as u8,
            ],
        ),
        _ => None,
    }
}

pub open spec fn dec3(s: Seq<char>) -> Option<Seq<u8>> {
    match (symbol_value(s[0]), symbol_value(s[1]), symbol_value(s[2])) {
        (Some(c0), Some(c1), Some(c2)) => if c2 & 3 == 0 {
            Some(seq![((c0 << 2) | (c1 >> 4)) as u8, (((c1 & 15) << 4) | (c2 >> 2)) as u8])
        } else {
            None
        },
        _ => None,
    }
}

pub open spec fn dec2(s: Seq<char>) -> Option<Seq<u8>> {
    match (symbol_value(s[0]), symbol_value(s[1])) {
        (Some(c0), Some(c1)) => if c1 & 15 == 0 {
            Some(seq![((c0 << 2) | (c1 >> 4)) as u8])
        } else {
            None
        },
        _ => None,
    }
}

/// The bytes that `s` encodes, or `None` when `s` is not a canonical
/// unpadded URL-safe encoding.
pub open spec fn decode_seq(s: Seq<char>) -> Option<Seq<u8>>
    decreases s.len(),
{
    if s.len() == 0 {
        Some(Seq::empty())
    } else if s.len() == 1 {
        None
    } else if s.len() == 2 {
        dec2(s)
    } else if s.len() == 3 {
        dec3(s)
    } else {
        match (dec4(s), decode_seq(s.skip(4))) {
            (Some(a), Some(b)) => Some(a + b),
            _ => None,
        }
    }
}

fn symbol_of(v: u8) -> (c: char)
    requires
        v < 64,
    ensures
        c == symbol(v),
{
    if v < 26 {
        (65 + v) as char
    } else if v < 52 {
        (97 + (v - 26)) as char
    } else if v < 62 {
        (48 + (v - 52)) as char
    } else if v == 62 {
        '-'
    } else {
        '_'
    }
}

fn value_of(c: char) -> (r: Option<u8>)
    ensures
        r == symbol_value(c),
{
    if 'A' <= c && c <= 'Z' {
        Some(((c as u32) - 65) as u8)
    } else if 'a' <= c && c <= 'z' {
        Some(((c as u32) - 97 + 26) as u8)
    } else if '0' <= c && c <= '9' {
        Some(((c as u32) - 48 + 52) as u8)
    } else if c == '-' {
        Some(62u8)
    } else if c == '_' {
        Some(63u8)
    } else {
        None
    }
}

proof fn lemma_bits3(b0: u8, b1: u8, b2: u8)
    by (bit_vector)
    ensures
        (b0 >> 2) < 64,
        (((b0 & 3) << 4) | (b1 >> 4)) < 64,
        (((b1 & 15) << 2) | (b2 >> 6)) < 64,
        (b2 & 63) < 64,
        ((b1 & 15) << 2) < 64,
        ((b0 & 3) << 4) < 64,
        ((((b1 & 15) << 2) as u8) & 3) == 0,
        ((((b0 & 3) << 4) as u8) & 15) == 0,
        (((b0 >> 2) << 2) | ((((b0 & 3) << 4) | (b1 >> 4)) >> 4)) as u8 == b0,
        ((((((b0 & 3) << 4) | (b1 >> 4)) & 15) << 4) | ((((b1 & 15) << 2) | (b2 >> 6)) >> 2)) as u8
            == b1,
        ((((((b1 & 15) << 2) | (b2 >> 6)) & 3) << 6) | (b2 & 63)) as u8 == b2,
        ((((((b0 & 3) << 4) | (b1 >> 4)) & 15) << 4) | (((b1 & 15) << 2) >> 2)) as u8 == b1,
        (((b0 >> 2) << 2) | (((b0 & 3) << 4) >> 4)) as u8 == b0,
{
}

proof fn lemma_symbol_roundtrip(v: u8)
    requires
        v < 64,
    ensures
        symbol_value(symbol(v)) == Some(v),
        symbol(v) != '.',
{
}

/// Decoding an encoding gives the bytes back.
pub proof fn lemma_decode_encode(b: Seq<u8>)
    ensures
        decode_seq(encode_seq(b)) == Some(b),
    decreases b.len(),
{
    if b.len() == 0 {
    } else if b.len() == 1 {
        lemma_bits3(b[0], 0, 0);
        lemma_symbol_roundtrip(b[0] >> 2);
        lemma_symbol_roundtrip((b[0] & 3) << 4);
        assert(dec2(enc1(b[0])).unwrap() =~= b);
    } else if b.len() == 2 {
        lemma_bits3(b[0], b[1], 0);
        lemma_symbol_roundtrip(b[0] >> 2);
        lemma_symbol_roundtrip(((b[0] & 3) << 4) | (b[1] >> 4));
        lemma_symbol_roundtrip((b[1] & 15) << 2);
        assert(dec3(enc2(b[0], b[1])).unwrap() =~= b);
    } else {
        lemma_bits3(b[0], b[1], b[2]);
        lemma_symbol_roundtrip(b[0] >> 2);
        lemma_symbol_roundtrip(((b[0] & 3) << 4) | (b[1] >> 4));
        lemma_symbol_roundtrip(((b[1] & 15) << 2) | (b[2] >> 6));
        lemma_symbol_roundtrip(b[2] & 63);
        let e = encode_seq(b);
        let rest = b.skip(3);
        lemma_decode_encode(rest);
        assert(e.skip(4) =~= encode_seq(rest));
        assert(e.len() >= 4);
        assert(dec4(e).unwrap() =~= b.take(3));
        assert(b.take(3) + rest =~= b);
    }
}

/// An encoding consists of symbols only.
pub proof fn lemma_encode_symbols(b: Seq<u8>)
    ensures
        forall|i: int| 0 <= i < encode_seq(b).len() ==> is_symbol(#[trigger] encode_seq(b)[i]),
        !encode_seq(b).contains('.'),
    decreases b.len(),
{
    if b.len() == 0 {
    } else if b.len() == 1 {
        lemma_bits3(b[0], 0, 0);
        lemma_symbol_roundtrip(b[0] >> 2);
        lemma_symbol_roundtrip((b[0] & 3) << 4);
    } else if b.len() == 2 {
        lemma_bits3(b[0], b[1], 0);
        lemma_symbol_roundtrip(b[0] >> 2);
        lemma_symbol_roundtrip(((b[0] & 3) << 4) | (b[1] >> 4));
        lemma_symbol_roundtrip((b[1] & 15) << 2);
    } else {
        lemma_bits3(b[0], b[1], b[2]);
        lemma_symbol_roundtrip(b[0] >> 2);
        lemma_symbol_roundtrip(((b[0] & 3) << 4) | (b[1] >> 4));
        lemma_symbol_roundtrip(((b[1] & 15) << 2) | (b[2] >> 6));
        lemma_symbol_roundtrip(b[2] & 63);
        lemma_encode_symbols(b.skip(3));
        let e = encode_seq(b);
        assert forall|i: int| 0 <= i < e.len() implies is_symbol(#[trigger] e[i]) by {
            if i >= 4 {
                assert(e[i] == encode_seq(b.skip(3))[i - 4]);
            }
        }
    }
    let e = encode_seq(b);
    assert(!e.contains('.')) by {
        if e.contains('.') {
            let k = choose|k: int| 0 <= k < e.len() && e[k] == '.';
            assert(is_symbol(e[k]));
        }
    }
}

/// `n` bytes encode to `ceil(4n / 3)` symbols.
pub proof fn lemma_encode_len(b: Seq<u8>)
    ensures
        encode_seq(b).len() == (4 * b.len() + 2) / 3,
    decreases b.len(),
{
    if b.len() >= 3 {
        lemma_encode_len(b.skip(3));
    }
}

/// Encodes bytes.
pub fn encode_bytes(b: &[u8]) -> (s: String)
    ensures
        s@ == encode_seq(b@),
{
    let mut s = String::new();
    let n = b.len();
    let mut i: usize = 0;
    assert(b@.skip(0) =~= b@);
    assert(s@ + encode_seq(b@) =~= encode_seq(b@));
    while n - i >= 3
        invariant
            i <= n == b@.len(),
            s@ + encode_seq(b@.skip(i as int)) == encode_seq(b@),
        decreases n - i,
    {
        let (b0, b1, b2) = (b[i], b[i + 1], b[i + 2]);
        proof {
            lemma_bits3(b0, b1, b2);
        }
        let ghost rest = b@.skip(i as int);
        assert(rest.skip(3) =~= b@.skip(i + 3));
        assert(rest[0] == b0 && rest[1] == b1 && rest[2] == b2);
        push_char(&mut s, symbol_of(b0 >> 2));
        push_char(&mut s, symbol_of(((b0 & 3) << 4) | (b1 >> 4)));
        push_char(&mut s, symbol_of(((b1 & 15) << 2) | (b2 >> 6)));
        push_char(&mut s, symbol_of(b2 & 63));
        assert(s@ + encode_seq(b@.skip(i + 3)) =~= encode_seq(b@));
        i += 3;
    }
    let ghost rest = b@.skip(i as int);
    if n - i == 2 {
        let (b0, b1) = (b[i], b[i + 1]);
        proof {
            lemma_bits3(b0, b1, 0);
        }
        assert(rest[0] == b0 && rest[1] == b1);
        push_char(&mut s, symbol_of(b0 >> 2));
        push_char(&mut s, symbol_of(((b0 & 3) << 4) | (b1 >> 4)));
        push_char(&mut s, symbol_of((b1 & 15) << 2));
    } else if n - i == 1 {
        let b0 = b[i];
        proof {
            lemma_bits3(b0, 0, 0);
        }
        assert(rest[0] == b0);
        push_char(&mut s, symbol_of(b0 >> 2));
        push_char(&mut s, symbol_of((b0 & 3) << 4));
    }
    assert(s@ =~= encode_seq(b@));
    s
}

/// Decodes a canonical unpadded URL-safe encoding.
pub fn decode_bytes(s: &str) -> (r: Option<Vec<u8>>)
    ensures
        r matches Some(v) ==> decode_seq(s@) == Some(v@),
        r is None ==> decode_seq(s@) is None,
{
    let c = chars_of(s);
    let n = c.len();
    let mut out: Vec<u8> = Vec::new();
    let mut i: usize = 0;
    assert(c@.skip(0) =~= c@);
    proof {
        match decode_seq(c@) {
            Some(t) => {
                assert(out@ + t =~= t);
            },
            None => {},
        }
    }
    while n - i >= 4
        invariant
            i <= n == c@.len(),
            c@ == s@,
            decode_seq(c@) == (match decode_seq(c@.skip(i as int)) {
                Some(t) => Some(out@ + t),
                None => None,
            }),
        decreases n - i,
    {
        let ghost rest = c@.skip(i as int);
        assert(rest.skip(4) =~= c@.skip(i + 4));
        assert(rest[0] == c@[i as int] && rest[1] == c@[i + 1] && rest[2] == c@[i + 2] && rest[3] == c@[i
            + 3]);
        match (value_of(c[i]), value_of(c[i + 1]), value_of(c[i + 2]), value_of(c[i + 3])) {
            (Some(c0), Some(c1), Some(c2), Some(c3)) => {
                let ghost o = out@;
                out.push((c0 << 2) | (c1 >> 4));
                out.push(((c1 & 15) << 4) | (c2 >> 2));
                out.push(((c2 & 3) << 6) | c3);
                let ghost chunk = dec4(rest).unwrap();
                assert(out@ =~= o + chunk);
                proof {
                    match decode_seq(c@.skip(i + 4)) {
                        Some(t) => {
                            assert(o + (chunk + t) =~= out@ + t);
                        },
                        None => {},
                    }
                }
            },
            _ => {
                return None;
            },
        }
        i += 4;
    }
    let ghost rest = c@.skip(i as int);
    let left = n - i;
    if left == 1 {
        return None;
    } else if left == 2 {
        assert(rest[0] == c@[i as int] && rest[1] == c@[i + 1]);
        match (value_of(c[i]), value_of(c[i + 1])) {
            (Some(c0), Some(c1)) => {
                if c1 & 15 != 0 {
                    return None;
                }
                out.push((c0 << 2) | (c1 >> 4));
            },
            _ => {
                return None;
            },
        }
    } else if left == 3 {
        assert(rest[0] == c@[i as int] && rest[1] == c@[i + 1] && rest[2] == c@[i + 2]);
        match (value_of(c[i]), value_of(c[i + 1]), value_of(c[i + 2])) {
            (Some(c0), Some(c1), Some(c2)) => {
                if c2 & 3 != 0 {
                    return None;
                }
                out.push((c0 << 2) | (c1 >> 4));
                out.push(((c1 & 15) << 4) | (c2 >> 2));
            },
            _ => {
                return None;
            },
        }
    }
    Some(out)
}

/// `String::from_utf8` from std: the text that `bytes` encode in UTF-8,
/// if they are valid UTF-8.
#[verifier::external_body]
fn string_from_utf8(bytes: Vec<u8>) -> (r: Option<String>)
    ensures
        r is Some <==> valid_utf8(bytes@),
        r matches Some(s) ==> s@ == decode_utf8(bytes@),
{
    String::from_utf8(bytes).ok()
}

/// The text that `bytes` encode in UTF-8, if they are valid UTF-8.
pub fn utf8_text(bytes: Vec<u8>) -> (r: Option<String>)
    ensures
        r is Some <==> valid_utf8(bytes@),
        r matches Some(s) ==> s@ == decode_utf8(bytes@),
{
    string_from_utf8(bytes)
}

/// The encoding of the UTF-8 bytes of `s`.
pub open spec fn encode_text(s: Seq<char>) -> Seq<char> {
    encode_seq(encode_utf8(s))
}

/// The text that `s` encodes, if it is a canonical encoding of UTF-8 bytes.
pub open spec fn decode_text(s: Seq<char>) -> Option<Seq<char>> {
    match decode_seq(s) {
        Some(b) => if valid_utf8(b) {
            Some(decode_utf8(b))
        } else {
            None
        },
        None => None,
    }
}

/// Encodes the UTF-8 bytes of a string.
pub fn encode_str(s: &str) -> (r: String)
    ensures
        r@ == encode_text(s@),
{
    encode_bytes(s.as_bytes())
}

/// Decodes an encoding of UTF-8 text.
pub fn decode_str(s: &str) -> (r: Option<String>)
    ensures
        r matches Some(t) ==> decode_text(s@) == Some(t@),
        r is None ==> decode_text(s@) is None,
{
    match decode_bytes(s) {
        Some(b) => utf8_text(b),
        None => None,
    }
}

/// Decoding the encoding of a text gives the text back.
pub proof fn lemma_decode_encode_text(s: Seq<char>)
    ensures
        decode_text(encode_text(s)) == Some(s),
        !encode_text(s).contains('.'),
{
    lemma_decode_encode(encode_utf8(s));
    encode_utf8_valid_utf8(s);
    encode_utf8_decode_utf8(s);
    lemma_encode_symbols(encode_utf8(s));
}

} // verus!
