//! The library's trusted boundary: every call into an outside crate (and into
//! the one std function vstd gives no specification for) goes through exactly
//! one wrapper here. Each wrapper's contract states only what the called
//! crate's source or documentation shows; results that no short statement can
//! pin down are given a name (an uninterpreted spec function) instead.

use vstd::prelude::*;

use argon2::password_hash::{PasswordHash, PasswordHasher, PasswordVerifier, SaltString};
use base64::Engine;
use rand::RngCore;

use crate::credential::spec_params_valid;
use vstd::string::StringSliceAdditionalSpecFns;

verus! {

/// What `str::trim` removes: the same string without leading and trailing
/// whitespace.
pub uninterp spec fn trim_of(s: Seq<char>) -> Seq<char>;

/// Whether `argon2`'s verification accepts this password against this
/// self-describing hash string. The verifier re-derives the digest with the
/// algorithm, version, parameters and salt embedded in the hash, so the
/// outcome is a function of the password and the hash string alone.
pub uninterp spec fn argon2_verify_ok(password: Seq<char>, hash: Seq<char>) -> bool;

/// Whether a string parses as a PHC-format password hash
/// (`argon2::password_hash::PasswordHash::new` succeeds on it).
pub uninterp spec fn phc_parses(hash: Seq<char>) -> bool;

/// The raw Argon2id (version 0x13) output for this password, salt and cost
/// parameters: a function of its arguments alone, which is what makes the
/// derived storage key reproducible.
pub uninterp spec fn argon2_raw(
    password: Seq<char>,
    salt: Seq<u8>,
    m_cost: u32,
    t_cost: u32,
    p_cost: u32,
    out_len: u32,
) -> Seq<u8>;

/// The standard base64 encoding (with padding) of a byte sequence.
pub uninterp spec fn b64_of(bytes: Seq<u8>) -> Seq<char>;

/// What standard base64 decoding yields on a string: the bytes, or nothing
/// where the string is not valid base64.
pub uninterp spec fn b64_decode_of(s: Seq<char>) -> Option<Seq<u8>>;

/// The lower-case hexadecimal digit for a value below sixteen.
pub open spec fn hex_digit(n: u8) -> char {
    seq!['0', '1', '2', '3', '4', '5', '6', '7', '8', '9', 'a', 'b', 'c', 'd', 'e', 'f'][n as int]
}

/// Lower-case hexadecimal encoding of a byte sequence: two digits per byte,
/// high nibble first.
pub open spec fn hex_of(bytes: Seq<u8>) -> Seq<char>
    decreases bytes.len(),
{
    if bytes.len() == 0 {
        Seq::empty()
    } else {
        seq![hex_digit(bytes.first() / 16), hex_digit(bytes.first() % 16)]
            + hex_of(bytes.drop_first())
    }
}

/// Relies on `str::trim` (std): returns the string without leading and
/// trailing whitespace.
#[verifier::external_body]
pub(crate) fn trim_str(s: &str) -> (r: String)
    ensures
        r@ == trim_of(s@),
{
    s.trim().to_string()
}

/// Relies on `argon2`'s `PasswordHasher::hash_password` with a fresh random
/// salt: on success the result is a PHC string that the same crate's verifier
/// accepts for the same password. The salt is random, so nothing else is
/// promised of the string. Success is owed whenever the output length is
/// within the PHC output bounds (ten to sixty-four bytes) and the password's
/// UTF-8 form is within the documented maximum: the generated salt is always
/// sixteen bytes, within every documented salt bound.
#[verifier::external_body]
pub(crate) fn argon2_hash_password(
    password: &str,
    m_cost: u32,
    t_cost: u32,
    p_cost: u32,
    out_len: u32,
) -> (r: Result<String, String>)
    requires
        spec_params_valid(m_cost, t_cost, p_cost, out_len),
    ensures
        r matches Ok(h) ==> argon2_verify_ok(password@, h@) && phc_parses(h@),
        (10 <= out_len <= 64 && password.spec_bytes().len() <= 0xFFFFFFFF) ==> r is Ok,
{
    let params = argon2::Params::new(m_cost, t_cost, p_cost, Some(out_len as usize))
        .map_err(|e| e.to_string())?;
    let hasher = argon2::Argon2::new(argon2::Algorithm::Argon2id, argon2::Version::V0x13, params);
    let salt = SaltString::generate(&mut rand::rngs::OsRng);
    match hasher.hash_password(password.as_bytes(), &salt) {
        Ok(h) => Ok(h.to_string()),
        Err(e) => Err(e.to_string()),
    }
}

/// Relies on `argon2`'s `PasswordVerifier::verify_password` after parsing the
/// hash with `PasswordHash::new`: parsing succeeds exactly when the string is
/// a PHC hash, and the verification outcome is a function of the password and
/// the hash string.
#[verifier::external_body]
pub(crate) fn argon2_verify(password: &str, hash: &str) -> (r: Result<bool, String>)
    ensures
        r matches Ok(b) ==> b == argon2_verify_ok(password@, hash@),
        r is Ok <==> phc_parses(hash@),
{
    let parsed = match PasswordHash::new(hash) {
        Ok(p) => p,
        Err(e) => return Err(e.to_string()),
    };
    Ok(argon2::Argon2::default().verify_password(password.as_bytes(), &parsed).is_ok())
}

/// Relies on `argon2`'s `hash_password_into` (Argon2id, version 0x13): fills
/// a buffer of exactly `out_len` bytes with a value that depends on the
/// password, salt and parameters alone; succeeds whenever the salt length is
/// within the crate's documented bounds and the password's UTF-8 form is not
/// longer than its documented maximum.
#[verifier::external_body]
pub(crate) fn argon2_derive(
    password: &str,
    salt: &[u8],
    m_cost: u32,
    t_cost: u32,
    p_cost: u32,
    out_len: u32,
) -> (r: Result<Vec<u8>, String>)
    requires
        spec_params_valid(m_cost, t_cost, p_cost, out_len),
    ensures
        r matches Ok(k) ==> k@ == argon2_raw(password@, salt@, m_cost, t_cost, p_cost, out_len)
            && k@.len() == out_len as int,
        (8 <= salt@.len() <= 0xFFFFFFFF && password.spec_bytes().len() <= 0xFFFFFFFF) ==> r is Ok,
{
    let params = argon2::Params::new(m_cost, t_cost, p_cost, Some(out_len as usize))
        .map_err(|e| e.to_string())?;
    let kdf = argon2::Argon2::new(argon2::Algorithm::Argon2id, argon2::Version::V0x13, params);
    let mut key = vec![0u8; out_len as usize];
    kdf.hash_password_into(password.as_bytes(), salt, &mut key).map_err(|e| e.to_string())?;
    Ok(key)
}

/// Relies on `base64`'s standard engine `encode`, whose `decode` inverts it.
#[verifier::external_body]
pub(crate) fn b64_encode(bytes: &[u8]) -> (r: String)
    ensures
        r@ == b64_of(bytes@),
        b64_decode_of(r@) == Some(bytes@),
{
    base64::engine::general_purpose::STANDARD.encode(bytes)
}

/// Relies on `base64`'s standard engine `decode`: yields bytes exactly on
/// valid base64 input.
#[verifier::external_body]
pub(crate) fn b64_decode(s: &str) -> (r: Result<Vec<u8>, String>)
    ensures
        r matches Ok(v) ==> b64_decode_of(s@) == Some(v@),
        r is Ok <==> b64_decode_of(s@) is Some,
{
    base64::engine::general_purpose::STANDARD.decode(s).map_err(|e| e.to_string())
}

/// Relies on `hex::encode`: lower-case hexadecimal, two digits per byte.
#[verifier::external_body]
pub(crate) fn hex_encode(bytes: &[u8]) -> (r: String)
    ensures
        r@ == hex_of(bytes@),
{
    hex::encode(bytes)
}

/// Relies on `rand`'s `OsRng::fill_bytes`: fills the sixteen-byte buffer from
/// the operating system's entropy source. The bytes are random, so only the
/// length is promised.
#[verifier::external_body]
pub(crate) fn random_salt16() -> (r: Vec<u8>)
    ensures
        r@.len() == 16,
{
    let mut buf = [0u8; 16];
    rand::rngs::OsRng.fill_bytes(&mut buf);
    buf.to_vec()
}

/// Relies on `uuid`'s `Uuid::new_v4` and its `Display` form: a random
/// identifier rendered as the 36-character hyphenated string. The value is
/// random, so only the length is promised.
#[verifier::external_body]
pub(crate) fn uuid_string() -> (r: String)
    ensures
        r@.len() == 36,
{
    uuid::Uuid::new_v4().to_string()
}

/// Relies on `chrono`'s `Utc::now().to_rfc3339()`: the current instant as an
/// RFC 3339 timestamp. The clock decides the value, so only non-emptiness is
/// promised.
#[verifier::external_body]
pub(crate) fn now_rfc3339() -> (r: String)
    ensures
        r@.len() > 0,
{
    chrono::Utc::now().to_rfc3339()
}

} // verus!
