//! The calls this library makes into outside crates (uuid, bcrypt, base64)
//! and into std functions that vstd does not specify.

use base64::Engine;
use vstd::prelude::*;
use vstd::string::StringSliceAdditionalSpecFns;
use vstd::utf8::{decode_utf8, encode_utf8, valid_utf8};

verus! {

/// `bcrypt::BcryptError`, the error of a failed hash.
#[verifier::external_type_specification]
#[verifier::external_body]
pub struct ExBcryptError(bcrypt::BcryptError);

/// `base64::DecodeError`, the error of a failed decode.
#[verifier::external_type_specification]
#[verifier::external_body]
pub struct ExDecodeError(base64::DecodeError);

/// The bits `uuid::Uuid::new_v4` fixes: the version nibble (the high half
/// of byte 6) is 4 and the variant (the two high bits of byte 8) is `10`;
/// byte 0 is the most significant byte of the 128-bit value.
pub open spec fn is_v4(id: u128) -> bool {
    (id >> 76u128) & 0xFu128 == 4u128 && (id >> 62u128) & 0x3u128 == 2u128
}

/// A fresh random id, from `uuid::Uuid::new_v4`, as the 128-bit value of
/// the UUID. The source masks a random value so that the version nibble is
/// 4 and the variant bits are `10`; that is all that is stated.
#[verifier::external_body]
pub(crate) fn new_uuid() -> (r: u128)
    ensures
        is_v4(r),
{
    uuid::Uuid::new_v4().as_u128()
}

/// The lowercase hexadecimal digit of `d`.
pub open spec fn hex_char(d: u128) -> char {
    if d < 10 {
        ('0' as u32 + d) as char
    } else {
        ('a' as u32 + (d - 10)) as char
    }
}

/// The hyphenated form of a UUID: 32 lowercase hexadecimal digits, most
/// significant first, in groups of 8, 4, 4, 4 and 12 joined by hyphens.
pub open spec fn uuid_hyphenated(id: u128) -> Seq<char> {
    Seq::new(
        36,
        |i: int|
            if i == 8 || i == 13 || i == 18 || i == 23 {
                '-'
            } else {
                let j = if i < 8 {
                    i
                } else if i < 13 {
                    i - 1
                } else if i < 18 {
                    i - 2
                } else if i < 23 {
                    i - 3
                } else {
                    i - 4
                };
                hex_char((id >> ((31 - j) * 4) as u128) & 0xF)
            },
    )
}

/// The UUID a text denotes under `uuid::Uuid::parse_str`, if any (it takes
/// the simple, hyphenated, braced and URN forms, in either case).
pub uninterp spec fn uuid_parse(text: Seq<char>) -> Option<u128>;

/// The text of a UUID given by its 128-bit value, from `Display` of
/// `uuid::Uuid` (hyphenated, lowercase); `parse_str` reads it back.
#[verifier::external_body]
pub(crate) fn uuid_string(id: u128) -> (r: String)
    ensures
        r@ == uuid_hyphenated(id),
        uuid_parse(r@) == Some(id),
{
    uuid::Uuid::from_u128(id).to_string()
}

/// The 128-bit value of the UUID a text denotes, from
/// `uuid::Uuid::parse_str`; `None` when the text is no UUID.
#[verifier::external_body]
pub(crate) fn parse_uuid(text: &str) -> (r: Option<u128>)
    ensures
        r == uuid_parse(text@),
{
    match uuid::Uuid::parse_str(text) {
        Ok(u) => Some(u.as_u128()),
        Err(_) => None,
    }
}

/// Whether `bcrypt::verify` accepts the password bytes `password` for the
/// hash text `hash` (it answers `Ok(true)`): it reads the cost and salt out
/// of the hash, hashes the password with them and compares.
pub uninterp spec fn bcrypt_verifies(password: Seq<u8>, hash: Seq<char>) -> bool;

/// A bcrypt hash of `password` at bcrypt's default cost (12), from
/// `bcrypt::hash`. The salt is random, so the hash itself is not fixed:
/// what is stated is its shape (60 characters starting with `$2b$12$`) and
/// that `bcrypt::verify` accepts the same password for it (both process the
/// password the same way, with the salt and cost the hash carries).
#[verifier::external_body]
pub(crate) fn hash_password(password: &str) -> (r: Result<String, bcrypt::BcryptError>)
    ensures
        r matches Ok(h) ==> h@.len() == 60 && h@.subrange(0, 7) == "$2b$12$"@,
        r matches Ok(h) ==> bcrypt_verifies(password.spec_bytes(), h@),
{
    bcrypt::hash(password, bcrypt::DEFAULT_COST)
}

/// Checks a password against a bcrypt hash with `bcrypt::verify`; a hash
/// that cannot be read (the error case) accepts nothing.
#[verifier::external_body]
pub(crate) fn verify_password(password: &str, hash: &str) -> (r: bool)
    ensures
        r == bcrypt_verifies(password.spec_bytes(), hash@),
{
    match bcrypt::verify(password, hash) {
        Ok(ok) => ok,
        Err(_) => false,
    }
}

/// The standard base64 encoding (with padding) of some bytes.
pub uninterp spec fn base64_encoding(data: Seq<u8>) -> Seq<char>;

/// The bytes a text decodes to under standard base64, if it is valid.
pub uninterp spec fn base64_decoding(text: Seq<u8>) -> Option<Seq<u8>>;

/// Encodes bytes with `base64::prelude::BASE64_STANDARD.encode`. Decoding
/// the encoding gives the bytes back (the crate's round-trip tests check
/// exactly this).
#[verifier::external_body]
pub(crate) fn encode_base64(data: &[u8]) -> (r: String)
    ensures
        r@ == base64_encoding(data@),
        base64_decoding(encode_utf8(r@)) == Some(data@),
{
    base64::prelude::BASE64_STANDARD.encode(data)
}

/// Decodes a text with `base64::prelude::BASE64_STANDARD.decode`.
#[verifier::external_body]
pub(crate) fn decode_base64(text: &str) -> (r: Result<Vec<u8>, base64::DecodeError>)
    ensures
        r is Ok == base64_decoding(text.spec_bytes()) is Some,
        r matches Ok(v) ==> base64_decoding(text.spec_bytes()) == Some(v@),
{
    base64::prelude::BASE64_STANDARD.decode(text)
}

/// The text `String::from_utf8_lossy` makes of some bytes.
pub uninterp spec fn utf8_lossy(bytes: Seq<u8>) -> Seq<char>;

/// Turns bytes into text with `String::from_utf8_lossy`, which replaces
/// invalid sequences; valid UTF-8 is decoded unchanged (std's
/// documentation).
#[verifier::external_body]
pub(crate) fn lossy_string(bytes: &[u8]) -> (r: String)
    ensures
        r@ == utf8_lossy(bytes@),
        valid_utf8(bytes@) ==> r@ == decode_utf8(bytes@),
{
    String::from_utf8_lossy(bytes).to_string()
}

} // verus!
