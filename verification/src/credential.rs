//! The credential engine: one memory-hard KDF used two independent ways —
//! once to produce a self-describing verification hash (fresh random salt),
//! once in raw-output mode to derive the storage key (the profile's own key
//! salt), so that neither artifact can reconstruct the other.

use vstd::prelude::*;

use crate::errors::AppError;
use crate::ext;
use crate::ext::{argon2_raw, argon2_verify_ok, b64_decode_of, phc_parses};
use crate::profile::{Argon2ParamsConfig, StoredProfile, StoredProfileV};
use vstd::string::StringSliceAdditionalSpecFns;

verus! {

/// The bounds under which the KDF accepts a cost triplet and output length:
/// at least eight memory blocks and eight per lane, at least one iteration,
/// parallelism between one and 2^24 - 1, output at least four bytes.
pub open spec fn spec_params_valid(m_cost: u32, t_cost: u32, p_cost: u32, out_len: u32) -> bool {
    &&& m_cost >= 8
    &&& m_cost as int >= p_cost as int * 8
    &&& t_cost >= 1
    &&& p_cost >= 1
    &&& p_cost <= 0xFFFFFF
    &&& out_len >= 4
}

/// Validity of a persisted parameter block.
pub open spec fn spec_params_config_valid(c: Argon2ParamsConfig) -> bool {
    spec_params_valid(c.m_cost, c.t_cost, c.p_cost, c.output_len)
}

/// The cost parameters assigned to a newly created profile.
pub open spec fn spec_default_params() -> Argon2ParamsConfig {
    Argon2ParamsConfig { m_cost: 19456, t_cost: 2, p_cost: 1, output_len: 32 }
}

/// Default cost parameters for new profiles; always valid.
pub fn default_params() -> (r: Argon2ParamsConfig)
    ensures
        r == spec_default_params(),
        spec_params_config_valid(r),
{
    Argon2ParamsConfig { m_cost: 19456, t_cost: 2, p_cost: 1, output_len: 32 }
}

/// Runtime check of a parameter block against the KDF's documented bounds.
pub fn params_config_valid(c: &Argon2ParamsConfig) -> (b: bool)
    ensures
        b == spec_params_config_valid(*c),
{
    c.m_cost >= 8 && (c.m_cost as u64) >= (c.p_cost as u64) * 8 && c.t_cost >= 1 && c.p_cost >= 1
        && c.p_cost <= 0xFFFFFF && c.output_len >= 4
}

/// When password verification against a stored profile succeeds: the
/// persisted parameters are within bounds, the stored hash parses as a PHC
/// string, and the KDF's verifier accepts the password against it.
pub open spec fn spec_verify_ok(profile: StoredProfileCred, password: Seq<char>) -> bool {
    &&& spec_params_config_valid(profile.params)
    &&& phc_parses(profile.hash)
    &&& argon2_verify_ok(password, profile.hash)
}

/// The credential-relevant part of a stored profile: its hash and parameters.
pub struct StoredProfileCred {
    pub hash: Seq<char>,
    pub params: Argon2ParamsConfig,
}

/// The credential view of a profile.
pub open spec fn spec_cred_of(profile: StoredProfile) -> StoredProfileCred {
    StoredProfileCred { hash: profile.password_hash@, params: profile.argon2_params }
}

/// Hash a password for storage: fresh random salt, self-describing PHC
/// output. Used only at profile creation. On success the returned string
/// verifies against the same password; success is owed whenever the output
/// length lies within the PHC output bounds and the password's UTF-8 form is
/// within the KDF's documented maximum.
pub fn hash_password(password: &str, params: &Argon2ParamsConfig) -> (r: Result<String, AppError>)
    requires
        spec_params_config_valid(*params),
    ensures
        r matches Ok(h) ==> argon2_verify_ok(password@, h@) && phc_parses(h@),
        r matches Err(e) ==> e is Config,
        (10 <= params.output_len <= 64 && password.spec_bytes().len() <= 0xFFFFFFFF) ==> r is Ok,
{
    match ext::argon2_hash_password(
        password,
        params.m_cost,
        params.t_cost,
        params.p_cost,
        params.output_len,
    ) {
        Ok(h) => Ok(h),
        Err(m) => Err(AppError::Config(m)),
    }
}

/// Verify a password against a profile's stored hash. Succeeds exactly when
/// the persisted parameters are within bounds, the stored hash parses, and
/// the KDF's constant-time verifier accepts the password; a malformed hash
/// or parameter block is a configuration fault, a rejected password an
/// authentication fault.
pub fn verify_password(profile: &StoredProfile, password: &str) -> (r: Result<(), AppError>)
    ensures
        r is Ok <==> spec_verify_ok(spec_cred_of(*profile), password@),
        r matches Err(e) ==> (e is Config <==> !(spec_params_config_valid(profile.argon2_params)
            && phc_parses(profile.password_hash@))),
        r matches Err(e) ==> (e is Auth <==> spec_params_config_valid(profile.argon2_params)
            && phc_parses(profile.password_hash@)
            && !argon2_verify_ok(password@, profile.password_hash@)),
{
    if !params_config_valid(&profile.argon2_params) {
        return Err(AppError::Config(String::from_str("invalid KDF parameters")));
    }
    match ext::argon2_verify(password, profile.password_hash.as_str()) {
        Ok(true) => Ok(()),
        Ok(false) => Err(AppError::Auth(String::from_str("incorrect password"))),
        Err(m) => Err(AppError::Config(m)),
    }
}

/// The storage key a profile yields for a password: the raw KDF output over
/// the decoded key salt and the persisted parameters.
pub open spec fn spec_derived_key(profile: StoredProfileV, password: Seq<char>) -> Seq<u8>
    recommends
        b64_decode_of(profile.key_salt_b64) is Some,
{
    argon2_raw(
        password,
        b64_decode_of(profile.key_salt_b64).unwrap(),
        profile.argon2_params.m_cost,
        profile.argon2_params.t_cost,
        profile.argon2_params.p_cost,
        profile.argon2_params.output_len,
    )
}

/// Derive the storage key for a profile: decode the profile's independent
/// key salt, then run the KDF in raw-output mode with the persisted
/// parameters. Deterministic: the same password, salt and parameters always
/// yield the same bytes, which is what lets the encrypted store reopen.
pub fn derive_key(profile: &StoredProfile, password: &str) -> (r: Result<Vec<u8>, AppError>)
    ensures
        r matches Ok(k) ==> b64_decode_of(profile.key_salt_b64@) is Some
            && k@ == spec_derived_key(profile@, password@)
            && k@.len() == profile.argon2_params.output_len as int,
        r matches Err(e) ==> e is Config,
        !spec_params_config_valid(profile.argon2_params) ==> r is Err,
        b64_decode_of(profile.key_salt_b64@) is None ==> r is Err,
        (spec_params_config_valid(profile.argon2_params)
            && (b64_decode_of(profile.key_salt_b64@) matches Some(salt)
                && 8 <= salt.len() <= 0xFFFFFFFF)
            && password.spec_bytes().len() <= 0xFFFFFFFF) ==> r is Ok,
{
    if !params_config_valid(&profile.argon2_params) {
        return Err(AppError::Config(String::from_str("invalid KDF parameters")));
    }
    let salt = match ext::b64_decode(profile.key_salt_b64.as_str()) {
        Ok(s) => s,
        Err(m) => {
            return Err(AppError::Config(m));
        },
    };
    match ext::argon2_derive(
        password,
        salt.as_slice(),
        profile.argon2_params.m_cost,
        profile.argon2_params.t_cost,
        profile.argon2_params.p_cost,
        profile.argon2_params.output_len,
    ) {
        Ok(k) => Ok(k),
        Err(m) => Err(AppError::Config(m)),
    }
}

/// Law: a password hashed for storage verifies afterwards. Whatever PHC
/// string `hash_password` produced for a password, a profile that stores it
/// with in-bound parameters passes `verify_password` for that same password.
pub proof fn lemma_hash_then_verify_succeeds(
    password: Seq<char>,
    hash: Seq<char>,
    profile: StoredProfileCred,
)
    requires
        argon2_verify_ok(password, hash),
        phc_parses(hash),
        profile.hash == hash,
        spec_params_config_valid(profile.params),
    ensures
        spec_verify_ok(profile, password),
{
}

/// Law: a password the KDF's verifier rejects does not pass verification,
/// whatever else the stored profile holds. (That a password other than the
/// hashed one is always rejected is a cryptographic fact of the KDF itself,
/// which no contract here can state; this law carries it from the named
/// verifier outcome to the library's verification predicate.)
pub proof fn lemma_wrong_password_rejected(profile: StoredProfileCred, password: Seq<char>)
    requires
        !argon2_verify_ok(password, profile.hash),
    ensures
        !spec_verify_ok(profile, password),
{
}

/// Law: key derivation is deterministic. Two derivations from the same
/// password, salt and parameters yield byte-identical keys.
pub proof fn lemma_derive_key_deterministic(
    password: Seq<char>,
    salt: Seq<u8>,
    m_cost: u32,
    t_cost: u32,
    p_cost: u32,
    out_len: u32,
    k1: Seq<u8>,
    k2: Seq<u8>,
)
    requires
        k1 == argon2_raw(password, salt, m_cost, t_cost, p_cost, out_len),
        k2 == argon2_raw(password, salt, m_cost, t_cost, p_cost, out_len),
    ensures
        k1 == k2,
{
}

} // verus!
