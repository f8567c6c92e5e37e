use vstd::prelude::*;

use base64::Engine;
use sha2::Digest;

use crate::error::{AppError, ErrorKind, coded_error};

verus! {

/// The SHA-256 digest of `data`, as the `sha2` crate computes it.
pub uninterp spec fn sha256_digest(data: Seq<u8>) -> Seq<u8>;

/// The lower-case hexadecimal digit of a value below 16.
pub open spec fn hex_digit(v: u8) -> char {
    if v < 10 {
        ((48 + v) as u8) as char
    } else {
        ((87 + v) as u8) as char
    }
}

/// Each byte as two lower-case hexadecimal digits, high nibble first.
pub open spec fn hex_lower(bytes: Seq<u8>) -> Seq<char>
    decreases bytes.len(),
{
    if bytes.len() == 0 {
        Seq::empty()
    } else {
        seq![hex_digit(bytes[0] / 16), hex_digit(bytes[0] % 16)] + hex_lower(bytes.drop_first())
    }
}

/// `sha2::Sha256::digest`: the 32-byte SHA-256 digest of `data`; the name
/// `sha256_digest` stands for the value, which is not restated here.
#[verifier::external_body]
fn sha256(data: &[u8]) -> (r: Vec<u8>)
    ensures
        r@ == sha256_digest(data@),
        r@.len() == 32,
{
    sha2::Sha256::digest(data).to_vec()
}

/// `hex::encode`: every byte as two lower-case hexadecimal digits.
#[verifier::external_body]
fn hex_encode(bytes: &[u8]) -> (r: String)
    ensures
        r@ == hex_lower(bytes@),
{
    hex::encode(bytes)
}

/// The lower-case hexadecimal SHA-256 digest of the UTF-8 bytes of `text`.
pub fn sha256_hex(text: &str) -> (r: String)
    ensures
        r@ == hex_lower(sha256_digest(vstd::utf8::encode_utf8(text@))),
        r@.len() == 64,
{
    let digest = sha256(text.as_bytes());
    let r = hex_encode(digest.as_slice());
    proof {
        lemma_hex_lower_len(digest@);
    }
    r
}

pub proof fn lemma_hex_lower_len(bytes: Seq<u8>)
    ensures
        hex_lower(bytes).len() == 2 * bytes.len(),
    decreases bytes.len(),
{
    if bytes.len() > 0 {
        lemma_hex_lower_len(bytes.drop_first());
    }
}

/// The character of a 6-bit value in the URL-safe base64 alphabet.
pub open spec fn base64url_char(v: u8) -> char {
    if v < 26 {
        ((65 + v) as u8) as char
    } else if v < 52 {
        ((71 + v) as u8) as char
    } else if v < 62 {
        ((v - 4) as u8) as char
    } else if v == 62 {
        '-'
    } else {
        '_'
    }
}

/// URL-safe base64 without padding: every three bytes become four
/// characters, and a final one or two bytes become two or three.
pub open spec fn base64url(bytes: Seq<u8>) -> Seq<char>
    decreases bytes.len(),
{
    if bytes.len() == 0 {
        Seq::empty()
    } else if bytes.len() == 1 {
        seq![base64url_char(bytes[0] / 4), base64url_char(((bytes[0] % 4) * 16) as u8)]
    } else if bytes.len() == 2 {
        seq![
            base64url_char(bytes[0] / 4),
            base64url_char(((bytes[0] % 4) * 16 + bytes[1] / 16) as u8),
            base64url_char(((bytes[1] % 16) * 4) as u8),
        ]
    } else {
        seq![
            base64url_char(bytes[0] / 4),
            base64url_char(((bytes[0] % 4) * 16 + bytes[1] / 16) as u8),
            base64url_char(((bytes[1] % 16) * 4 + bytes[2] / 64) as u8),
            base64url_char(bytes[2] % 64),
        ] + base64url(bytes.skip(3))
    }
}

pub proof fn lemma_base64url_len(bytes: Seq<u8>)
    ensures
        bytes.len() % 3 == 0 ==> base64url(bytes).len() == bytes.len() / 3 * 4,
        bytes.len() % 3 == 1 ==> base64url(bytes).len() == bytes.len() / 3 * 4 + 2,
        bytes.len() % 3 == 2 ==> base64url(bytes).len() == bytes.len() / 3 * 4 + 3,
    decreases bytes.len(),
{
    if bytes.len() >= 3 {
        lemma_base64url_len(bytes.skip(3));
    }
}

/// `base64::engine::general_purpose::URL_SAFE_NO_PAD.encode`.
#[verifier::external_body]
fn encode_base64url(bytes: &[u8]) -> (s: String)
    ensures
        s@ == base64url(bytes@),
{
    base64::engine::general_purpose::URL_SAFE_NO_PAD.encode(bytes)
}

#[verifier::external_type_specification]
#[verifier::external_body]
pub struct ExRandomError(getrandom::Error);

/// `getrandom::fill` on a 32-byte buffer: the operating system's random
/// bytes, or its error. Which bytes come back is chance and is not stated.
#[verifier::external_body]
fn random_32_bytes() -> (r: Result<Vec<u8>, getrandom::Error>)
    ensures
        r is Ok ==> r->Ok_0@.len() == 32,
{
    let mut raw = [0_u8; 32];
    getrandom::fill(&mut raw)?;
    Ok(raw.to_vec())
}

/// Whether `token` encodes 32 bytes in URL-safe base64 without padding.
pub open spec fn is_secret_token(token: Seq<char>) -> bool {
    exists|bytes: Seq<u8>| bytes.len() == 32 && token == base64url(bytes)
}

/// The secret token that `bytes` encode: URL-safe base64 without padding,
/// 43 characters for 32 bytes.
pub fn secret_token_from(bytes: &[u8]) -> (s: String)
    requires
        bytes@.len() == 32,
    ensures
        s@ == base64url(bytes@),
        s@.len() == 43,
        is_secret_token(s@),
{
    let token = encode_base64url(bytes);
    proof {
        lemma_base64url_len(bytes@);
    }
    token
}

/// A fresh secret token: 32 random bytes in URL-safe base64 without padding
/// (43 characters); a failing random source is an internal error named by
/// `context`.
pub fn new_secret_token(context: &'static str) -> (r: Result<String, AppError>)
    ensures
        r is Ok ==> is_secret_token(r->Ok_0@) && r->Ok_0@.len() == 43,
        r is Err ==> r == Err::<String, AppError>(coded_error(ErrorKind::Internal, "INTERNAL_ERROR", context)),
{
    match random_32_bytes() {
        Ok(bytes) => Ok(secret_token_from(bytes.as_slice())),
        Err(_) => Err(AppError::internal(context)),
    }
}

} // verus!
