//! The single-slot session: at most one unlocked profile per process. Every
//! data access must fetch the active session first; absence of a session is
//! an authorization failure, never a silent empty result.

use vstd::prelude::*;

use crate::errors::AppError;

verus! {

/// The in-memory record of the currently unlocked profile: its identity, the
/// location of its encrypted store, and the derived storage key (held only
/// in memory).
pub struct ActiveProfile {
    pub id: String,
    pub db_path: String,
    pub key: Vec<u8>,
}

/// View of an `ActiveProfile`.
pub struct ActiveProfileV {
    pub id: Seq<char>,
    pub db_path: Seq<char>,
    pub key: Seq<u8>,
}

impl View for ActiveProfile {
    type V = ActiveProfileV;

    open spec fn view(&self) -> ActiveProfileV {
        ActiveProfileV { id: self.id@, db_path: self.db_path@, key: self.key@ }
    }
}

/// A byte-for-byte copy of a byte vector.
pub fn copy_bytes(v: &Vec<u8>) -> (r: Vec<u8>)
    ensures
        r@ == v@,
{
    let mut out: Vec<u8> = Vec::new();
    let mut i: usize = 0;
    while i < v.len()
        invariant
            i <= v@.len(),
            out@ == v@.subrange(0, i as int),
        decreases v@.len() - i,
    {
        out.push(v[i]);
        i = i + 1;
        proof {
            assert(out@ =~= v@.subrange(0, i as int));
        }
    }
    proof {
        assert(out@ =~= v@);
    }
    out
}

impl ActiveProfile {
    /// A field-for-field copy whose view is the same.
    pub fn duplicate(&self) -> (r: ActiveProfile)
        ensures
            r@ == self@,
    {
        ActiveProfile {
            id: self.id.clone(),
            db_path: self.db_path.clone(),
            key: copy_bytes(&self.key),
        }
    }
}

/// The process-wide session holder: an optional slot with at most one active
/// profile. (The surrounding application guards it with a mutual-exclusion
/// lock; the slot's own transitions are what this type specifies.) The raw
/// slot is never exposed: callers go through `open_session` and
/// `get_active_profile` alone.
pub struct AppState {
    active_profile: Option<ActiveProfile>,
}

impl AppState {
    /// The active session as a view, if one is open.
    pub closed spec fn spec_active(&self) -> Option<ActiveProfileV> {
        match self.active_profile {
            Some(a) => Some(a@),
            None => None,
        }
    }

    /// A fresh state: no profile unlocked.
    pub fn new() -> (r: AppState)
        ensures
            r.spec_active() is None,
    {
        AppState { active_profile: None }
    }

    /// Unconditionally install a session, replacing whatever was active:
    /// opening a profile always wins, and implicitly abandons the previous
    /// session.
    pub fn open_session(&mut self, session: ActiveProfile)
        ensures
            final(self).spec_active() == Some(session@),
    {
        self.active_profile = Some(session);
    }

    /// The active session, or an authorization failure when none is open.
    /// Every data-access path calls this before touching storage.
    pub fn get_active_profile(&self) -> (r: Result<ActiveProfile, AppError>)
        ensures
            r is Ok <==> self.spec_active() is Some,
            r matches Ok(a) ==> self.spec_active() == Some(a@),
            r matches Err(e) ==> e is Auth,
    {
        match &self.active_profile {
            Some(a) => Ok(a.duplicate()),
            None => Err(AppError::Auth(String::from_str("no profile is open"))),
        }
    }
}

impl Default for AppState {
    /// The default state has no active session.
    fn default() -> (r: AppState)
        ensures
            r.spec_active() is None,
    {
        AppState { active_profile: None }
    }
}

} // verus!
