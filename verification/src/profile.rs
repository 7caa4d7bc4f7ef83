//! Durable profile metadata: the per-profile KDF cost parameters and the
//! stored catalog entry, with the registry operations that read and extend
//! the catalog.

use vstd::prelude::*;

use crate::credential;
use crate::errors::AppError;
use crate::ext;
use crate::ext::{argon2_verify_ok, b64_decode_of, phc_parses, trim_of};
use crate::models::{ProfileSummary, ProfileSummaryV};
use vstd::string::StringSliceAdditionalSpecFns;

verus! {

/// The memory-hard KDF's cost triplet and output length, persisted per
/// profile so that verification and key derivation stay reproducible even if
/// the library's defaults change later.
#[derive(Clone, Copy, PartialEq, Eq, Structural, Debug)]
pub struct Argon2ParamsConfig {
    pub m_cost: u32,
    pub t_cost: u32,
    pub p_cost: u32,
    pub output_len: u32,
}

/// One profile as persisted in the catalog: identity, label, creation time,
/// the location of its encrypted store, the verification hash, the
/// independent key-derivation salt (base64), and the KDF parameters.
pub struct StoredProfile {
    pub id: String,
    pub name: String,
    pub created_at: String,
    pub db_path: String,
    pub password_hash: String,
    pub key_salt_b64: String,
    pub argon2_params: Argon2ParamsConfig,
}

/// View of a `StoredProfile`: the string fields as character sequences; the
/// parameter block is already a plain value.
pub struct StoredProfileV {
    pub id: Seq<char>,
    pub name: Seq<char>,
    pub created_at: Seq<char>,
    pub db_path: Seq<char>,
    pub password_hash: Seq<char>,
    pub key_salt_b64: Seq<char>,
    pub argon2_params: Argon2ParamsConfig,
}

impl View for StoredProfile {
    type V = StoredProfileV;

    open spec fn view(&self) -> StoredProfileV {
        StoredProfileV {
            id: self.id@,
            name: self.name@,
            created_at: self.created_at@,
            db_path: self.db_path@,
            password_hash: self.password_hash@,
            key_salt_b64: self.key_salt_b64@,
            argon2_params: self.argon2_params,
        }
    }
}

impl StoredProfile {
    /// A field-for-field copy whose view is the same.
    pub fn duplicate(&self) -> (r: StoredProfile)
        ensures
            r@ == self@,
    {
        StoredProfile {
            id: self.id.clone(),
            name: self.name.clone(),
            created_at: self.created_at.clone(),
            db_path: self.db_path.clone(),
            password_hash: self.password_hash.clone(),
            key_salt_b64: self.key_salt_b64.clone(),
            argon2_params: self.argon2_params,
        }
    }

    /// What of a profile the UI may see: id, name and creation time; never
    /// the hash, the salt or the parameters.
    pub fn summary(&self) -> (r: ProfileSummary)
        ensures
            r@ == (ProfileSummaryV { id: self.id@, name: self.name@, created_at: self.created_at@ }),
    {
        ProfileSummary {
            id: self.id.clone(),
            name: self.name.clone(),
            created_at: self.created_at.clone(),
        }
    }
}

/// Where a profile's encrypted store lives under the application's data
/// directory: a profile-specific directory named after the profile's id.
pub open spec fn spec_profile_dir(data_dir: Seq<char>, id: Seq<char>) -> Seq<char> {
    data_dir + "/profiles/"@ + id
}

/// The storage location assigned to a profile at creation.
pub open spec fn spec_profile_db_path(data_dir: Seq<char>, id: Seq<char>) -> Seq<char> {
    spec_profile_dir(data_dir, id) + "/profile.db"@
}

/// The directory that holds one profile's store.
pub fn profile_dir(data_dir: &str, id: &str) -> (r: String)
    ensures
        r@ == spec_profile_dir(data_dir@, id@),
{
    let mut s = String::from_str(data_dir);
    s.append("/profiles/");
    s.append(id);
    s
}

/// The storage location assigned to a profile at creation.
pub fn profile_db_path(data_dir: &str, id: &str) -> (r: String)
    ensures
        r@ == spec_profile_db_path(data_dir@, id@),
{
    let mut s = profile_dir(data_dir, id);
    s.append("/profile.db");
    s
}

/// Law: storage locations do not collide. Two profiles with distinct ids are
/// assigned distinct store paths under the same data directory, so no two
/// profiles can share an encrypted store.
pub proof fn lemma_profile_paths_do_not_collide(
    data_dir: Seq<char>,
    id1: Seq<char>,
    id2: Seq<char>,
)
    requires
        id1 != id2,
    ensures
        spec_profile_db_path(data_dir, id1) != spec_profile_db_path(data_dir, id2),
{
    let pa = spec_profile_db_path(data_dir, id1);
    let pb = spec_profile_db_path(data_dir, id2);
    if id1.len() != id2.len() {
        assert(pa.len() != pb.len());
    } else if pa == pb {
        let off = data_dir.len() + "/profiles/"@.len();
        assert forall|k: int| 0 <= k < id1.len() implies id1[k] == id2[k] by {
            assert(pa[off + k] == id1[k]);
            assert(pb[off + k] == id2[k]);
        }
        assert(id1 =~= id2);
    }
}

/// Position of the first catalog entry carrying an id, if any.
pub open spec fn spec_first_match(profiles: Seq<StoredProfile>, id: Seq<char>, i: int) -> bool {
    &&& 0 <= i < profiles.len()
    &&& profiles[i].id@ == id
    &&& forall|j: int| 0 <= j < i ==> profiles[j].id@ != id
}

/// Find the first catalog entry with the given id.
pub fn find_profile_index(profiles: &Vec<StoredProfile>, profile_id: &str) -> (r: Option<usize>)
    ensures
        r matches Some(i) ==> spec_first_match(profiles@, profile_id@, i as int),
        r is None <==> forall|j: int| 0 <= j < profiles@.len() ==> profiles@[j].id@ != profile_id@,
{
    let mut i: usize = 0;
    while i < profiles.len()
        invariant
            i <= profiles@.len(),
            forall|j: int| 0 <= j < i ==> profiles@[j].id@ != profile_id@,
        decreases profiles@.len() - i,
    {
        if crate::store::str_eq(profiles[i].id.as_str(), profile_id) {
            return Some(i);
        }
        i = i + 1;
    }
    None
}

/// The catalog reduced to what the UI may see, in catalog order.
pub fn list_profiles(profiles: &Vec<StoredProfile>) -> (r: Vec<ProfileSummary>)
    ensures
        r@.len() == profiles@.len(),
        forall|i: int| 0 <= i < r@.len() ==> #[trigger] r@[i]@ == (ProfileSummaryV {
            id: profiles@[i].id@,
            name: profiles@[i].name@,
            created_at: profiles@[i].created_at@,
        }),
{
    let mut out: Vec<ProfileSummary> = Vec::new();
    let mut i: usize = 0;
    while i < profiles.len()
        invariant
            i <= profiles@.len(),
            out@.len() == i,
            forall|j: int| 0 <= j < i ==> #[trigger] out@[j]@ == (ProfileSummaryV {
                id: profiles@[j].id@,
                name: profiles@[j].name@,
                created_at: profiles@[j].created_at@,
            }),
        decreases profiles@.len() - i,
    {
        out.push(profiles[i].summary());
        i = i + 1;
    }
    out
}

/// Check the inputs of a profile to create: the name and the password must
/// be non-blank after trimming. Runs before any file or directory exists,
/// so a rejected input leaves no trace.
pub fn validate_profile_input(name: &str, password: &str) -> (r: Result<(), AppError>)
    ensures
        r is Ok <==> (trim_of(name@).len() > 0 && trim_of(password@).len() > 0),
        r matches Err(e) ==> e is Validation,
{
    let trimmed_name = ext::trim_str(name);
    if trimmed_name.as_str().is_empty() {
        return Err(AppError::Validation(String::from_str("a profile name is required")));
    }
    let trimmed_password = ext::trim_str(password);
    if trimmed_password.as_str().is_empty() {
        return Err(AppError::Validation(String::from_str("a password is required")));
    }
    Ok(())
}

/// Create a profile and append it to the catalog. The name and the password
/// must be non-blank after trimming — a blank one is rejected before
/// anything is generated or stored; a non-blank pair is owed success (the
/// password's UTF-8 form staying within the KDF's documented maximum). On
/// success the new entry carries the
/// trimmed name, a fresh 36-character id, a creation timestamp, a storage
/// location derived from the id, a password hash that verifies against the
/// given password, an independent 16-byte key salt (base64), and the default
/// KDF parameters.
pub fn create_profile(
    profiles: &mut Vec<StoredProfile>,
    data_dir: &str,
    name: &str,
    password: &str,
) -> (r: Result<StoredProfile, AppError>)
    ensures
        (trim_of(name@).len() == 0 || trim_of(password@).len() == 0) <==> (r matches Err(e)
            && e is Validation),
        r is Err ==> final(profiles)@ == old(profiles)@,
        r matches Err(e) ==> e is Validation || e is Config,
        r matches Ok(p) ==> {
            &&& final(profiles)@.len() == old(profiles)@.len() + 1
            &&& (forall|j: int| 0 <= j < old(profiles)@.len() ==> final(profiles)@[j] == old(
                profiles,
            )@[j])
            &&& final(profiles)@.last()@ == p@
            &&& p.name@ == trim_of(name@)
            &&& p.argon2_params == credential::spec_default_params()
            &&& argon2_verify_ok(password@, p.password_hash@)
            &&& phc_parses(p.password_hash@)
            &&& (b64_decode_of(p.key_salt_b64@) matches Some(salt) && salt.len() == 16)
            &&& p.id@.len() == 36
            &&& p.created_at@.len() > 0
            &&& p.db_path@ == spec_profile_db_path(data_dir@, p.id@)
        },
        (trim_of(name@).len() > 0 && trim_of(password@).len() > 0 && password.spec_bytes().len()
            <= 0xFFFFFFFF) ==> r is Ok,
{
    match validate_profile_input(name, password) {
        Ok(()) => (),
        Err(e) => {
            return Err(e);
        },
    }
    let trimmed_name = ext::trim_str(name);

    let params = credential::default_params();
    let id = ext::uuid_string();
    let created_at = ext::now_rfc3339();
    let salt = ext::random_salt16();
    let key_salt_b64 = ext::b64_encode(salt.as_slice());
    let password_hash = match credential::hash_password(password, &params) {
        Ok(h) => h,
        Err(e) => {
            return Err(e);
        },
    };
    let db_path = profile_db_path(data_dir, id.as_str());

    let stored = StoredProfile {
        id,
        name: trimmed_name,
        created_at,
        db_path,
        password_hash,
        key_salt_b64,
        argon2_params: params,
    };
    profiles.push(stored.duplicate());
    Ok(stored)
}

} // verus!
