//! The calls this library makes into `bson`, `bytes`, `reqwest` and the
//! system clock, each behind a small trusted item whose contract says what
//! the called code does.

use crate::text::nat_decimal;
use bson::oid::ObjectId;
use bytes::Bytes;
use vstd::prelude::*;

verus! {

/// Lower-case hexadecimal digit of a nibble `n` (0..=15).
pub open spec fn hex_nibble(n: int) -> char {
    if n < 10 {
        (n + 48) as char
    } else {
        (n + 87) as char
    }
}

/// Lower-case hexadecimal rendering of bytes, two digits per byte.
pub open spec fn hex_lower(b: Seq<u8>) -> Seq<char>
    decreases b.len(),
{
    if b.len() == 0 {
        seq![]
    } else {
        hex_lower(b.drop_last()) + seq![hex_nibble(b.last() as int / 16), hex_nibble(b.last() as int % 16)]
    }
}

/// Whether `c` is a hexadecimal digit of either case.
pub open spec fn is_hex_digit(c: char) -> bool {
    ('0' <= c && c <= '9') || ('a' <= c && c <= 'f') || ('A' <= c && c <= 'F')
}

/// The value of a hexadecimal digit.
pub open spec fn hex_digit_value(c: char) -> int {
    if '0' <= c && c <= '9' {
        (c as int) - 48
    } else if 'a' <= c && c <= 'f' {
        (c as int) - 87
    } else {
        (c as int) - 55
    }
}

/// Decoding of a hexadecimal string of even length, two digits per byte.
pub open spec fn hex_decode(s: Seq<char>) -> Seq<u8>
    decreases s.len(),
{
    if s.len() < 2 {
        seq![]
    } else {
        hex_decode(s.subrange(0, s.len() - 2)).push(
            (hex_digit_value(s[s.len() - 2]) * 16 + hex_digit_value(s[s.len() - 1])) as u8,
        )
    }
}

/// The text of an object id: exactly 24 hexadecimal digits.
pub open spec fn is_object_id_text(s: Seq<char>) -> bool {
    s.len() == 24 && forall|i: int| 0 <= i < s.len() ==> is_hex_digit(#[trigger] s[i])
}

/// Lower-case hexadecimal text, as `ObjectId::new().to_hex()` returns it.
pub open spec fn is_lower_hex_text(s: Seq<char>, len: nat) -> bool {
    s.len() == len && forall|i: int|
        0 <= i < s.len() ==> (('0' <= #[trigger] s[i] && s[i] <= '9') || ('a' <= s[i] && s[i] <= 'f'))
}

/// `ObjectId::from_bytes(id).to_hex()`: `to_hex` is `hex::encode` of the 12
/// bytes, which writes each byte as two lower-case hexadecimal digits.
#[verifier::external_body]
pub(crate) fn object_id_to_hex(id: [u8; 12]) -> (s: String)
    ensures
        s@ == hex_lower(id@),
{
    ObjectId::from_bytes(id).to_hex()
}

/// `ObjectId::parse_str(s)`, giving the 12 bytes on success. `parse_str`
/// decodes `s` with `hex::decode` (digits of either case, even length) and
/// accepts the result only when it is 12 bytes long, so it succeeds exactly
/// on 24 hexadecimal digits.
#[verifier::external_body]
pub(crate) fn parse_object_id(s: &str) -> (r: Option<[u8; 12]>)
    ensures
        r is Some <==> is_object_id_text(s@),
        r matches Some(b) ==> b@ == hex_decode(s@),
{
    match ObjectId::parse_str(s) {
        Ok(id) => Some(id.bytes()),
        Err(_) => None,
    }
}

/// `ObjectId::new().to_hex()`: a fresh object id (from the clock, a
/// per-process random value and a counter) in lower-case hexadecimal. Which
/// id comes back is left open; only its shape is stated.
#[verifier::external_body]
pub(crate) fn fresh_object_id_hex() -> (s: String)
    ensures
        is_lower_hex_text(s@, 24),
{
    ObjectId::new().to_hex()
}

/// `bson::DateTime::now().timestamp_millis()`: the current time in
/// milliseconds since the Unix epoch. Nothing is stated of the value.
#[verifier::external_body]
pub(crate) fn now_millis() -> (t: i64) {
    bson::DateTime::now().timestamp_millis()
}

/// Milliseconds since the Unix epoch from `std::time::SystemTime`, zero when
/// the clock reads before the epoch. Nothing is stated of the value.
#[verifier::external_body]
pub(crate) fn system_clock_millis() -> (t: u128) {
    std::time::SystemTime::now().duration_since(std::time::UNIX_EPOCH).unwrap_or_default().as_millis()
}

/// The byte buffer type of the `bytes` crate.
#[verifier::external_type_specification]
#[verifier::external_body]
pub struct ExBytes(Bytes);

/// The bytes a `Bytes` buffer holds.
pub uninterp spec fn bytes_view(b: Bytes) -> Seq<u8>;

/// `Bytes::len`: the number of bytes in the buffer.
#[verifier::external_body]
pub(crate) fn bytes_len(b: &Bytes) -> (n: usize)
    ensures
        n == bytes_view(*b).len(),
{
    b.len()
}

/// `Bytes::is_empty`: whether the buffer holds no bytes.
#[verifier::external_body]
pub(crate) fn bytes_is_empty(b: &Bytes) -> (e: bool)
    ensures
        e == (bytes_view(*b).len() == 0),
{
    b.is_empty()
}

/// The reason phrase that `reqwest::StatusCode`'s `Display` writes after the
/// number: the canonical reason, or `<unknown status code>`.
pub uninterp spec fn status_reason(code: u16) -> Seq<char>;

/// `reqwest::StatusCode::from_u16(code)` rendered with `to_string()`. Its
/// `Display` writes the number, a space and the reason phrase.
#[verifier::external_body]
pub(crate) fn status_code_text(code: u16) -> (s: String)
    requires
        100 <= code <= 999,
    ensures
        s@ == nat_decimal(code as nat) + seq![' '] + status_reason(code),
{
    match reqwest::StatusCode::from_u16(code) {
        Ok(status) => status.to_string(),
        Err(_) => String::new(),
    }
}

} // verus!
