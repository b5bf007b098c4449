//! Hexadecimal rendering of artifact fields.
//!
//! Every byte-valued field of the persisted artifact is rendered as a
//! `0x`-prefixed lowercase hexadecimal string. Encoding is delegated to the
//! `hex` crate behind an exact contract; decoding is implemented and
//! verified here, and proved to invert the encoding.

use vstd::prelude::*;
use vstd::string::*;

verus! {

/// The lowercase hexadecimal digit for a nibble value.
pub open spec fn spec_hex_digit(n: int) -> char
    recommends
        0 <= n < 16,
{
    if n == 0 {
        '0'
    } else if n == 1 {
        '1'
    } else if n == 2 {
        '2'
    } else if n == 3 {
        '3'
    } else if n == 4 {
        '4'
    } else if n == 5 {
        '5'
    } else if n == 6 {
        '6'
    } else if n == 7 {
        '7'
    } else if n == 8 {
        '8'
    } else if n == 9 {
        '9'
    } else if n == 10 {
        'a'
    } else if n == 11 {
        'b'
    } else if n == 12 {
        'c'
    } else if n == 13 {
        'd'
    } else if n == 14 {
        'e'
    } else {
        'f'
    }
}

/// The nibble value of a lowercase hexadecimal digit, or nothing for any
/// other character.
pub open spec fn spec_hex_val(c: char) -> Option<u8> {
    if c == '0' {
        Some(0u8)
    } else if c == '1' {
        Some(1u8)
    } else if c == '2' {
        Some(2u8)
    } else if c == '3' {
        Some(3u8)
    } else if c == '4' {
        Some(4u8)
    } else if c == '5' {
        Some(5u8)
    } else if c == '6' {
        Some(6u8)
    } else if c == '7' {
        Some(7u8)
    } else if c == '8' {
        Some(8u8)
    } else if c == '9' {
        Some(9u8)
    } else if c == 'a' {
        Some(10u8)
    } else if c == 'b' {
        Some(11u8)
    } else if c == 'c' {
        Some(12u8)
    } else if c == 'd' {
        Some(13u8)
    } else if c == 'e' {
        Some(14u8)
    } else if c == 'f' {
        Some(15u8)
    } else {
        None
    }
}

/// The lowercase hex encoding of a byte sequence: two digits per byte,
/// high nibble first.
pub open spec fn spec_hex(bytes: Seq<u8>) -> Seq<char> {
    Seq::new(
        (bytes.len() * 2) as nat,
        |i: int|
            if i % 2 == 0 {
                spec_hex_digit(bytes[i / 2] as int / 16)
            } else {
                spec_hex_digit(bytes[i / 2] as int % 16)
            },
    )
}

/// A transportable artifact field: `0x` followed by the lowercase hex
/// digits of the bytes.
pub open spec fn spec_hex_field(bytes: Seq<u8>) -> Seq<char> {
    seq!['0', 'x'] + spec_hex(bytes)
}

/// What decoding a plain hex string yields: the spelled bytes when the
/// string has even length and only lowercase hex digits, nothing otherwise.
pub open spec fn spec_hex_decode(s: Seq<char>) -> Option<Seq<u8>> {
    if s.len() % 2 == 0 && (forall|i: int| 0 <= i < s.len() ==> spec_hex_val(s[i]) is Some) {
        Some(
            Seq::new(
                (s.len() / 2) as nat,
                |i: int|
                    (spec_hex_val(s[2 * i])->Some_0 * 16 + spec_hex_val(s[2 * i + 1])->Some_0) as u8,
            ),
        )
    } else {
        None
    }
}

/// What decoding a `0x`-prefixed hex field yields: the bytes of the part
/// after the prefix, nothing when the prefix is absent.
pub open spec fn spec_decode_hex_field(s: Seq<char>) -> Option<Seq<u8>> {
    if s.len() >= 2 && s[0] == '0' && s[1] == 'x' {
        spec_hex_decode(s.subrange(2, s.len() as int))
    } else {
        None
    }
}

/// Relies on `hex::encode`: each byte becomes two lowercase hexadecimal
/// digits, high nibble first.
#[verifier::external_body]
pub(crate) fn hex_encode(bytes: &Vec<u8>) -> (r: String)
    ensures
        r@ == spec_hex(bytes@),
{
    hex::encode(bytes)
}

/// Renders bytes as a `0x`-prefixed lowercase hex field.
pub fn hex_field(bytes: &Vec<u8>) -> (r: String)
    ensures
        r@ == spec_hex_field(bytes@),
{
    let prefix = String::from_str("0x");
    let digits = hex_encode(bytes);
    let r = prefix.concat(digits.as_str());
    proof {
        reveal_strlit("0x");
        assert(r@ =~= spec_hex_field(bytes@));
    }
    r
}

/// The nibble value of a character, mirroring [`spec_hex_val`].
fn hex_val(c: char) -> (r: Option<u8>)
    ensures
        r == spec_hex_val(c),
{
    if c == '0' {
        Some(0u8)
    } else if c == '1' {
        Some(1u8)
    } else if c == '2' {
        Some(2u8)
    } else if c == '3' {
        Some(3u8)
    } else if c == '4' {
        Some(4u8)
    } else if c == '5' {
        Some(5u8)
    } else if c == '6' {
        Some(6u8)
    } else if c == '7' {
        Some(7u8)
    } else if c == '8' {
        Some(8u8)
    } else if c == '9' {
        Some(9u8)
    } else if c == 'a' {
        Some(10u8)
    } else if c == 'b' {
        Some(11u8)
    } else if c == 'c' {
        Some(12u8)
    } else if c == 'd' {
        Some(13u8)
    } else if c == 'e' {
        Some(14u8)
    } else if c == 'f' {
        Some(15u8)
    } else {
        None
    }
}

/// Decodes a plain lowercase hex string back into bytes; fails on odd
/// length or on any character that is not a lowercase hex digit.
pub fn hex_decode(s: &str) -> (r: Option<Vec<u8>>)
    ensures
        r is Some <==> spec_hex_decode(s@) is Some,
        r is Some ==> spec_hex_decode(s@) == Some(r->Some_0@),
{
    let n = s.unicode_len();
    if n % 2 != 0 {
        return None;
    }
    let half = n / 2;
    let mut out: Vec<u8> = Vec::new();
    let mut k: usize = 0;
    while k < half
        invariant
            n == s@.len(),
            n % 2 == 0,
            half == n / 2,
            k <= half,
            out@.len() == k,
            forall|j: int| 0 <= j < 2 * k ==> spec_hex_val(s@[j]) is Some,
            forall|j: int|
                0 <= j < k ==> out@[j] == (spec_hex_val(s@[2 * j])->Some_0 * 16 + spec_hex_val(
                    s@[2 * j + 1],
                )->Some_0) as u8,
        decreases half - k,
    {
        let c_hi = s.get_char(2 * k);
        let c_lo = s.get_char(2 * k + 1);
        let hi = match hex_val(c_hi) {
            Some(v) => v,
            None => {
                return None;
            },
        };
        let lo = match hex_val(c_lo) {
            Some(v) => v,
            None => {
                return None;
            },
        };
        out.push(hi * 16 + lo);
        k = k + 1;
    }
    proof {
        assert(spec_hex_decode(s@) is Some);
        assert(spec_hex_decode(s@)->Some_0 =~= out@);
    }
    Some(out)
}

/// Decodes a `0x`-prefixed hex field back into bytes; fails when the
/// prefix is absent or the rest is not lowercase hex.
pub fn decode_hex_field(s: &str) -> (r: Option<Vec<u8>>)
    ensures
        r is Some <==> spec_decode_hex_field(s@) is Some,
        r is Some ==> spec_decode_hex_field(s@) == Some(r->Some_0@),
{
    let n = s.unicode_len();
    if n < 2 {
        return None;
    }
    let c0 = s.get_char(0);
    let c1 = s.get_char(1);
    if !(c0 == '0' && c1 == 'x') {
        return None;
    }
    let rest = s.substring_char(2, n);
    hex_decode(rest)
}

/// Hex round trip: decoding the hex encoding of any byte sequence recovers
/// exactly those bytes.
pub proof fn lemma_hex_round_trip(bytes: Seq<u8>)
    ensures
        spec_hex_decode(spec_hex(bytes)) == Some(bytes),
{
    let s = spec_hex(bytes);
    assert forall|i: int| 0 <= i < s.len() implies spec_hex_val(s[i]) is Some by {
        let b = bytes[i / 2] as int;
        assert(0 <= b < 256);
        assert(0 <= b / 16 < 16);
        assert(0 <= b % 16 < 16);
    }
    assert(spec_hex_decode(s) is Some);
    let decoded = spec_hex_decode(s)->Some_0;
    assert forall|i: int| 0 <= i < bytes.len() implies decoded[i] == bytes[i] by {
        let b = bytes[i] as int;
        assert(s[2 * i] == spec_hex_digit(b / 16));
        assert(s[2 * i + 1] == spec_hex_digit(b % 16));
        assert(0 <= b / 16 < 16);
        assert(0 <= b % 16 < 16);
        assert((b / 16) * 16 + b % 16 == b) by (nonlinear_arith);
    }
    assert(decoded =~= bytes);
}

/// Field round trip: decoding the `0x`-prefixed hex field of any byte
/// sequence recovers exactly those bytes.
pub proof fn lemma_hex_field_round_trip(bytes: Seq<u8>)
    ensures
        spec_decode_hex_field(spec_hex_field(bytes)) == Some(bytes),
{
    let s = spec_hex_field(bytes);
    assert(s.subrange(2, s.len() as int) =~= spec_hex(bytes));
    lemma_hex_round_trip(bytes);
}

} // verus!
