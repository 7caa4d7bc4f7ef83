//! The command surface at the boundary of the library: profile opening and
//! the session-gated record operations. Every data command re-checks the
//! session first; with no profile open it fails with an authorization error,
//! never with a silent empty result.

use vstd::prelude::*;

use crate::credential;
use crate::credential::{spec_cred_of, spec_derived_key, spec_verify_ok};
use crate::errors::AppError;
use crate::ext::b64_decode_of;
use crate::models::{Patient, PatientInput, ProfileSummary, ProfileSummaryV};
use crate::profile::{find_profile_index, spec_first_match, StoredProfile};
use crate::session::{ActiveProfile, ActiveProfileV, AppState};
use crate::store::{spec_without_id, PatientStore};
use vstd::string::StringSliceAdditionalSpecFns;

verus! {

/// The session an opened profile installs: the profile's identity, its
/// storage location, and the key derived from the password.
pub open spec fn spec_session_of(profile: StoredProfile, password: Seq<char>) -> ActiveProfileV {
    ActiveProfileV {
        id: profile.id@,
        db_path: profile.db_path@,
        key: spec_derived_key(profile@, password),
    }
}

/// When an open attempt against a catalog is owed success: the id is in the
/// catalog, the password verifies against the entry found first, and its key
/// salt and the password are within the KDF's accepted ranges.
pub open spec fn spec_open_owed(
    profiles: Seq<StoredProfile>,
    profile_id: Seq<char>,
    password: &str,
    i: int,
) -> bool {
    &&& spec_first_match(profiles, profile_id, i)
    &&& spec_verify_ok(spec_cred_of(profiles[i]), password@)
    &&& (b64_decode_of(profiles[i].key_salt_b64@) matches Some(salt) && 8 <= salt.len()
        <= 0xFFFFFFFF)
    &&& password.spec_bytes().len() <= 0xFFFFFFFF
}

/// Law: a profile the library just created can be opened with the password
/// it was created with. An entry that carries what profile creation
/// guarantees — a hash that verifies against the password, the default
/// parameters, a decodable 16-byte key salt — is owed a successful open
/// wherever it is the first catalog entry with its id (the password's UTF-8
/// form staying within the KDF's documented maximum).
pub proof fn lemma_created_profile_opens(profiles: Seq<StoredProfile>, i: int, password: &str)
    requires
        spec_first_match(profiles, profiles[i].id@, i),
        crate::ext::argon2_verify_ok(password@, profiles[i].password_hash@),
        crate::ext::phc_parses(profiles[i].password_hash@),
        profiles[i].argon2_params == credential::spec_default_params(),
        b64_decode_of(profiles[i].key_salt_b64@) matches Some(salt) && salt.len() == 16,
        password.spec_bytes().len() <= 0xFFFFFFFF,
    ensures
        spec_open_owed(profiles, profiles[i].id@, password, i),
{
}

/// Authenticate a password against a catalog entry and derive that entry's
/// storage key, without touching the session: the preflight of an open.
/// Fails with `NotFound` exactly when no entry carries the id; with `Auth`
/// when the entry's password check rejects; with `Config` when the entry's
/// stored material is malformed or the derivation is rejected.
pub fn authenticate_profile(
    profiles: &Vec<StoredProfile>,
    profile_id: &str,
    password: &str,
) -> (r: Result<ActiveProfile, AppError>)
    ensures
        (forall|j: int| 0 <= j < profiles@.len() ==> profiles@[j].id@ != profile_id@) <==> (
        r matches Err(e) && e is NotFound),
        r matches Ok(a) ==> exists|i: int|
            {
                &&& #[trigger] spec_first_match(profiles@, profile_id@, i)
                &&& spec_verify_ok(spec_cred_of(profiles@[i]), password@)
                &&& a@ == spec_session_of(profiles@[i], password@)
                &&& a.key@.len() == profiles@[i].argon2_params.output_len as int
            },
        r matches Err(e) && e is Auth ==> exists|i: int|
            #[trigger] spec_first_match(profiles@, profile_id@, i) && !spec_verify_ok(
                spec_cred_of(profiles@[i]),
                password@,
            ),
        r matches Err(e) && e is Config ==> exists|i: int|
            #[trigger] spec_first_match(profiles@, profile_id@, i),
        (exists|i: int| #[trigger] spec_open_owed(profiles@, profile_id@, password, i)) ==> r is Ok,
{
    let idx = match find_profile_index(profiles, profile_id) {
        Some(i) => i,
        None => {
            return Err(AppError::NotFound(String::from_str("profile not found")));
        },
    };
    let p = &profiles[idx];
    match credential::verify_password(p, password) {
        Ok(()) => (),
        Err(e) => {
            return Err(e);
        },
    }
    let key = match credential::derive_key(p, password) {
        Ok(k) => k,
        Err(e) => {
            return Err(e);
        },
    };
    Ok(ActiveProfile { id: p.id.clone(), db_path: p.db_path.clone(), key })
}

/// A catalog has at most one first entry with a given id.
proof fn lemma_first_match_unique(profiles: Seq<StoredProfile>, id: Seq<char>, i: int, j: int)
    requires
        spec_first_match(profiles, id, i),
        spec_first_match(profiles, id, j),
    ensures
        i == j,
{
    if i < j {
        assert(profiles[i].id@ != id);
    } else if j < i {
        assert(profiles[j].id@ != id);
    }
}

/// Open a profile: authenticate, derive the storage key, and install the
/// result as the active session, unconditionally replacing any session that
/// was active before. On failure the session is left as it was.
pub fn open_profile(
    state: &mut AppState,
    profiles: &Vec<StoredProfile>,
    profile_id: &str,
    password: &str,
) -> (r: Result<ProfileSummary, AppError>)
    ensures
        r is Err ==> final(state).spec_active() == old(state).spec_active(),
        (forall|j: int| 0 <= j < profiles@.len() ==> profiles@[j].id@ != profile_id@) <==> (
        r matches Err(e) && e is NotFound),
        r matches Err(e) && e is Auth ==> exists|i: int|
            #[trigger] spec_first_match(profiles@, profile_id@, i) && !spec_verify_ok(
                spec_cred_of(profiles@[i]),
                password@,
            ),
        r matches Err(e) && e is Config ==> exists|i: int|
            #[trigger] spec_first_match(profiles@, profile_id@, i),
        r matches Ok(s) ==> exists|i: int|
            {
                &&& #[trigger] spec_first_match(profiles@, profile_id@, i)
                &&& spec_verify_ok(spec_cred_of(profiles@[i]), password@)
                &&& final(state).spec_active() == Some(
                    spec_session_of(profiles@[i], password@),
                )
                &&& s@ == (ProfileSummaryV {
                    id: profiles@[i].id@,
                    name: profiles@[i].name@,
                    created_at: profiles@[i].created_at@,
                })
            },
        (exists|i: int| #[trigger] spec_open_owed(profiles@, profile_id@, password, i)) ==> r is Ok,
{
    let idx = match find_profile_index(profiles, profile_id) {
        Some(i) => i,
        None => {
            return Err(AppError::NotFound(String::from_str("profile not found")));
        },
    };
    let session = match authenticate_profile(profiles, profile_id, password) {
        Ok(s) => s,
        Err(e) => {
            return Err(e);
        },
    };
    proof {
        let gi = choose|i: int|
            {
                &&& #[trigger] spec_first_match(profiles@, profile_id@, i)
                &&& spec_verify_ok(spec_cred_of(profiles@[i]), password@)
                &&& session@ == spec_session_of(profiles@[i], password@)
                &&& session.key@.len() == profiles@[i].argon2_params.output_len as int
            };
        lemma_first_match_unique(profiles@, profile_id@, gi, idx as int);
    }
    let summary = profiles[idx].summary();
    state.open_session(session);
    Ok(summary)
}

/// List the records of the active profile's store, most recent first; an
/// authorization error, and nothing else, when no profile is open.
pub fn list_patients(state: &AppState, store: &PatientStore) -> (r: Result<
    Vec<Patient>,
    AppError,
>)
    ensures
        state.spec_active() is None <==> (r matches Err(e) && e is Auth),
        r matches Ok(v) ==> v@.len() == store@.len() && (forall|i: int|
            0 <= i < v@.len() ==> #[trigger] v@[i]@ == store@[i]),
        r is Ok <==> state.spec_active() is Some,
{
    match state.get_active_profile() {
        Ok(_) => Ok(store.list_patients()),
        Err(e) => Err(e),
    }
}

/// Create a record in the active profile's store; an authorization error,
/// and an unchanged store, when no profile is open.
pub fn create_patient(state: &AppState, store: &mut PatientStore, input: &PatientInput) -> (r:
    Result<Patient, AppError>)
    ensures
        state.spec_active() is None <==> (r matches Err(e) && e is Auth),
        r is Err ==> final(store)@ == old(store)@,
        r is Ok <==> state.spec_active() is Some,
        r matches Ok(p) ==> {
            &&& final(store)@ == seq![p@] + old(store)@
            &&& p@.first_name == input@.first_name
            &&& p@.last_name == input@.last_name
            &&& p@.birth_date == input@.birth_date
            &&& p@.gender == input@.gender
            &&& p@.phone == input@.phone
            &&& p@.email == input@.email
            &&& p@.created_at == p@.updated_at
            &&& p@.id.len() == 36
            &&& p@.created_at.len() > 0
        },
{
    match state.get_active_profile() {
        Ok(_) => Ok(store.create_patient(input)),
        Err(e) => Err(e),
    }
}

/// Delete a record by id in the active profile's store: idempotent — an id
/// that no record carries leaves the store unchanged and is not an error;
/// an authorization error, and an unchanged store, when no profile is open.
pub fn delete_patient(state: &AppState, store: &mut PatientStore, patient_id: &str) -> (r: Result<
    (),
    AppError,
>)
    ensures
        state.spec_active() is None <==> (r matches Err(e) && e is Auth),
        r is Err ==> final(store)@ == old(store)@,
        r is Ok <==> state.spec_active() is Some,
        r is Ok ==> final(store)@ == spec_without_id(old(store)@, patient_id@),
{
    match state.get_active_profile() {
        Ok(_) => {
            store.delete_patient(patient_id);
            Ok(())
        },
        Err(e) => Err(e),
    }
}

} // verus!
