//! Plain record shapes handed across the library boundary, with their
//! mathematical views: a profile summary (never carries hash or salt
//! material), a stored record, and the input shape used to create one.

use vstd::prelude::*;

verus! {

/// What a profile looks like to the UI: identity and label only.
pub struct ProfileSummary {
    pub id: String,
    pub name: String,
    pub created_at: String,
}

/// View of a `ProfileSummary`: every field as a character sequence.
pub struct ProfileSummaryV {
    pub id: Seq<char>,
    pub name: Seq<char>,
    pub created_at: Seq<char>,
}

impl View for ProfileSummary {
    type V = ProfileSummaryV;

    open spec fn view(&self) -> ProfileSummaryV {
        ProfileSummaryV { id: self.id@, name: self.name@, created_at: self.created_at@ }
    }
}

/// A managed record as stored: identity, the caller-supplied fields, and the
/// two server-assigned timestamps.
pub struct Patient {
    pub id: String,
    pub first_name: String,
    pub last_name: String,
    pub birth_date: String,
    pub gender: String,
    pub phone: String,
    pub email: Option<String>,
    pub created_at: String,
    pub updated_at: String,
}

/// View of a `Patient`.
pub struct PatientV {
    pub id: Seq<char>,
    pub first_name: Seq<char>,
    pub last_name: Seq<char>,
    pub birth_date: Seq<char>,
    pub gender: Seq<char>,
    pub phone: Seq<char>,
    pub email: Option<Seq<char>>,
    pub created_at: Seq<char>,
    pub updated_at: Seq<char>,
}

impl View for Patient {
    type V = PatientV;

    open spec fn view(&self) -> PatientV {
        PatientV {
            id: self.id@,
            first_name: self.first_name@,
            last_name: self.last_name@,
            birth_date: self.birth_date@,
            gender: self.gender@,
            phone: self.phone@,
            email: match self.email {
                Some(e) => Some(e@),
                None => None,
            },
            created_at: self.created_at@,
            updated_at: self.updated_at@,
        }
    }
}

impl Patient {
    /// A field-for-field copy whose view is the same.
    pub fn duplicate(&self) -> (r: Patient)
        ensures
            r@ == self@,
    {
        Patient {
            id: self.id.clone(),
            first_name: self.first_name.clone(),
            last_name: self.last_name.clone(),
            birth_date: self.birth_date.clone(),
            gender: self.gender.clone(),
            phone: self.phone.clone(),
            email: match &self.email {
                Some(e) => Some(e.clone()),
                None => None,
            },
            created_at: self.created_at.clone(),
            updated_at: self.updated_at.clone(),
        }
    }
}

/// Caller-supplied fields of a record to create; id and timestamps are
/// assigned by the store.
pub struct PatientInput {
    pub first_name: String,
    pub last_name: String,
    pub birth_date: String,
    pub gender: String,
    pub phone: String,
    pub email: Option<String>,
}

/// View of a `PatientInput`.
pub struct PatientInputV {
    pub first_name: Seq<char>,
    pub last_name: Seq<char>,
    pub birth_date: Seq<char>,
    pub gender: Seq<char>,
    pub phone: Seq<char>,
    pub email: Option<Seq<char>>,
}

impl View for PatientInput {
    type V = PatientInputV;

    open spec fn view(&self) -> PatientInputV {
        PatientInputV {
            first_name: self.first_name@,
            last_name: self.last_name@,
            birth_date: self.birth_date@,
            gender: self.gender@,
            phone: self.phone@,
            email: match self.email {
                Some(e) => Some(e@),
                None => None,
            },
        }
    }
}

} // verus!
