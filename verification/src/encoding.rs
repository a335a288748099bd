//! Hex encoding and decoding of byte strings, and the `0x`-prefixed
//! integer encoding the Fiber JSON-RPC interface uses for amounts.

use vstd::prelude::*;
use vstd::string::*;

use crate::errors::HexError;

verus! {

/// The lower-case hex digit for a value in `0..16`.
pub open spec fn hex_char_of(n: int) -> char {
    if n == 0 {
        '0'
    } else if n == 1 {
        '1'
    } else if n == 2 {
        '2'
    } else if n == 3 {
        '3'
    } else if n == 4 {
        '4'
    } else if n == 5 {
        '5'
    } else if n == 6 {
        '6'
    } else if n == 7 {
        '7'
    } else if n == 8 {
        '8'
    } else if n == 9 {
        '9'
    } else if n == 10 {
        'a'
    } else if n == 11 {
        'b'
    } else if n == 12 {
        'c'
    } else if n == 13 {
        'd'
    } else if n == 14 {
        'e'
    } else {
        'f'
    }
}

/// Lower-case hex encoding: two digits per byte, high nibble first.
pub open spec fn spec_hex_encode(b: Seq<u8>) -> Seq<char> {
    Seq::new(
        b.len() * 2,
        |i: int|
            if i % 2 == 0 {
                hex_char_of(b[i / 2] as int / 16)
            } else {
                hex_char_of(b[i / 2] as int % 16)
            },
    )
}

/// Whether `c` is a hex digit, in either case.
pub open spec fn is_hex_char(c: char) -> bool {
    ('0' <= c && c <= '9') || ('a' <= c && c <= 'f') || ('A' <= c && c <= 'F')
}

/// The value of a hex digit.
pub open spec fn hex_val(c: char) -> int {
    if '0' <= c && c <= '9' {
        c as int - '0' as int
    } else if 'a' <= c && c <= 'f' {
        c as int - 'a' as int + 10
    } else {
        c as int - 'A' as int + 10
    }
}

/// Whether a character string is a well-formed hex encoding.
pub open spec fn hex_valid(s: Seq<char>) -> bool {
    s.len() % 2 == 0 && (forall|i: int| 0 <= i < s.len() ==> is_hex_char(#[trigger] s[i]))
}

/// The bytes a well-formed hex string encodes.
pub open spec fn spec_hex_decode(s: Seq<char>) -> Seq<u8> {
    Seq::new(s.len() / 2, |i: int| (hex_val(s[2 * i]) * 16 + hex_val(s[2 * i + 1])) as u8)
}

/// Relies on hex::encode: lower-case hex, two digits per byte.
#[verifier::external_body]
pub fn hex_encode(b: &Vec<u8>) -> (r: String)
    ensures
        r@ == spec_hex_encode(b@),
{
    hex::encode(b.as_slice())
}

/// Relies on hex::decode: succeeds exactly on strings of hex digits
/// (either case) of even length, and returns the encoded bytes.
#[verifier::external_body]
pub fn hex_decode(s: &str) -> (r: Result<Vec<u8>, HexError>)
    ensures
        r is Ok <==> hex_valid(s@),
        r is Ok ==> r->Ok_0@ == spec_hex_decode(s@),
        r is Err ==> (r->Err_0 == HexError::OddLength || r->Err_0 == HexError::InvalidChar),
{
    match hex::decode(s) {
        Ok(v) => Ok(v),
        Err(hex::FromHexError::OddLength) => Err(HexError::OddLength),
        Err(hex::FromHexError::InvalidHexCharacter { .. }) => Err(HexError::InvalidChar),
        Err(hex::FromHexError::InvalidStringLength) => Err(HexError::WrongLength),
    }
}

/// Whether `c` is an ASCII whitespace character: space, tab, line
/// feed or carriage return.
pub open spec fn is_ascii_space(c: char) -> bool {
    c == ' ' || c == '\t' || c == '\n' || c == '\r'
}

/// Whether a string holds no visible character: empty, or nothing but
/// ASCII whitespace.
pub open spec fn spec_blank(s: Seq<char>) -> bool {
    forall|i: int| 0 <= i < s.len() ==> is_ascii_space(#[trigger] s[i])
}

/// Returns whether the string is empty or all ASCII whitespace.
pub fn is_blank(s: &str) -> (r: bool)
    ensures
        r == spec_blank(s@),
{
    let n = s.unicode_len();
    let mut i: usize = 0;
    while i < n
        invariant
            i <= n,
            n == s@.len(),
            forall|j: int| 0 <= j < i ==> is_ascii_space(#[trigger] s@[j]),
        decreases n - i,
    {
        let c = s.get_char(i);
        if !(c == ' ' || c == '\t' || c == '\n' || c == '\r') {
            return false;
        }
        i = i + 1;
    }
    true
}

/// `s` without a leading `0x`, if it has one.
pub open spec fn spec_strip_0x(s: Seq<char>) -> Seq<char> {
    if s.len() >= 2 && s[0] == '0' && s[1] == 'x' {
        s.skip(2)
    } else {
        s
    }
}

/// Removes an optional `0x` prefix.
pub fn strip_hex_prefix(s: &str) -> (r: &str)
    ensures
        r@ == spec_strip_0x(s@),
{
    let n = s.unicode_len();
    if n >= 2 && s.get_char(0) == '0' && s.get_char(1) == 'x' {
        let rest = s.substring_char(2, n);
        proof {
            assert(rest@ =~= s@.skip(2));
        }
        rest
    } else {
        s
    }
}

/// Decodes a hex string with an optional `0x` prefix into exactly `n` bytes.
pub fn decode_hex_bytes(s: &str, n: usize) -> (r: Result<Vec<u8>, HexError>)
    ensures
        r is Ok <==> (hex_valid(spec_strip_0x(s@)) && spec_hex_decode(spec_strip_0x(s@)).len()
            == n),
        r is Ok ==> r->Ok_0@ == spec_hex_decode(spec_strip_0x(s@)),
{
    let stripped = strip_hex_prefix(s);
    match hex_decode(stripped) {
        Ok(bytes) => {
            if bytes.len() == n {
                Ok(bytes)
            } else {
                Err(HexError::WrongLength)
            }
        },
        Err(e) => Err(e),
    }
}

/// The big-endian bytes of a 64-bit value.
pub open spec fn spec_u64_be_bytes(v: u64) -> Seq<u8> {
    Seq::new(8, |i: int| (v >> (((7 - i) * 8) as u64)) as u8)
}

/// Computes the eight big-endian bytes of `v`.
pub fn u64_be_bytes(v: u64) -> (r: Vec<u8>)
    ensures
        r@ == spec_u64_be_bytes(v),
{
    let mut r: Vec<u8> = Vec::new();
    r.push((v >> 56u64) as u8);
    r.push((v >> 48u64) as u8);
    r.push((v >> 40u64) as u8);
    r.push((v >> 32u64) as u8);
    r.push((v >> 24u64) as u8);
    r.push((v >> 16u64) as u8);
    r.push((v >> 8u64) as u8);
    r.push((v >> 0u64) as u8);
    proof {
        assert(r@ =~= spec_u64_be_bytes(v));
    }
    r
}

/// A digit string without leading zeros: drops leading `'0'` characters,
/// but keeps the last character even if it is `'0'`.
pub open spec fn spec_trim_zeros(s: Seq<char>) -> Seq<char>
    decreases s.len(),
{
    if s.len() <= 1 {
        s
    } else if s[0] == '0' {
        spec_trim_zeros(s.skip(1))
    } else {
        s
    }
}

/// Trimming a digit string keeps the suffix that starts at the first
/// character that is not `'0'` (or at the last character).
proof fn lemma_trim_zeros_skip(s: Seq<char>, i: int)
    requires
        0 <= i < s.len(),
        forall|j: int| 0 <= j < i ==> s[j] == '0',
        i == s.len() - 1 || s[i] != '0',
    ensures
        spec_trim_zeros(s) == s.skip(i),
    decreases i,
{
    if i == 0 {
        assert(s.skip(0) =~= s);
    } else {
        assert(s[0] == '0');
        assert(s.len() > 1);
        lemma_trim_zeros_skip(s.skip(1), i - 1);
        assert(s.skip(1).skip(i - 1) =~= s.skip(i));
    }
}

/// The `0x`-prefixed minimal lower-case hex encoding of a 64-bit amount,
/// as the Fiber JSON-RPC interface expects it.
pub open spec fn spec_hex_u64(v: u64) -> Seq<char> {
    seq!['0', 'x'] + spec_trim_zeros(spec_hex_encode(spec_u64_be_bytes(v)))
}

/// Encodes `v` as a `0x`-prefixed minimal lower-case hex string.
pub fn hex_of_u64(v: u64) -> (r: String)
    ensures
        r@ == spec_hex_u64(v),
{
    let bytes = u64_be_bytes(v);
    let digits = hex_encode(&bytes);
    let ghost d: Seq<char> = digits@;
    proof {
        assert(d.len() == 16);
    }
    let mut i: usize = 0;
    while i < 15 && digits.as_str().get_char(i) == '0'
        invariant
            i <= 15,
            d.len() == 16,
            digits@ == d,
            forall|j: int| 0 <= j < i ==> d[j] == '0',
        decreases 15 - i,
    {
        i = i + 1;
    }
    proof {
        lemma_trim_zeros_skip(d, i as int);
    }
    let suffix = digits.as_str().substring_char(i, 16);
    let mut r = String::new();
    r.append("0x");
    r.append(suffix);
    proof {
        reveal_strlit("0x");
        assert(r@ =~= spec_hex_u64(v));
    }
    r
}

} // verus!
