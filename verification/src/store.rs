//! The record store's logic: an ordered collection of records, most recent
//! first, together with the statement that applies the session's raw key to
//! a freshly opened storage handle. The surrounding application performs the
//! actual storage I/O; every rule about what the operations return is here.

use vstd::prelude::*;

use crate::ext;
use crate::ext::hex_of;
use crate::models::{Patient, PatientInput, PatientV};

verus! {

/// The key-application directive for an encrypted storage handle: the raw
/// key bytes as a fixed-width hexadecimal string inside the vendor's
/// `PRAGMA key` form. It must be the first statement executed against a
/// fresh handle, or the store is unreadable.
pub open spec fn spec_key_pragma(key: Seq<u8>) -> Seq<char> {
    "PRAGMA key = \"x'"@ + hex_of(key) + "'\";"@
}

/// Render the key-application statement for a raw key.
pub fn key_pragma_statement(key: &Vec<u8>) -> (r: String)
    ensures
        r@ == spec_key_pragma(key@),
{
    let mut s = String::from_str("PRAGMA key = \"x'");
    let hex = ext::hex_encode(key.as_slice());
    s.append(hex.as_str());
    s.append("'\";");
    s
}

/// How a sequence of records changes when one id is deleted: every record
/// with another id is retained, in order.
pub open spec fn spec_without_id(records: Seq<PatientV>, id: Seq<char>) -> Seq<PatientV> {
    records.filter(|p: PatientV| p.id != id)
}

/// Law: `filter` keeps a sequence whole when every element passes.
pub proof fn lemma_filter_keeps_all<A>(s: Seq<A>, pred: spec_fn(A) -> bool)
    requires
        forall|i: int| 0 <= i < s.len() ==> #[trigger] pred(s[i]),
    ensures
        s.filter(pred) == s,
    decreases s.len(),
{
    reveal(Seq::filter);
    if s.len() > 0 {
        lemma_filter_keeps_all(s.drop_last(), pred);
        assert(s.drop_last().push(s.last()) =~= s);
    }
}

/// Law: deleting an id removes it — no record of the deleted id survives in
/// the store that a deletion leaves behind.
pub proof fn lemma_deleted_id_is_absent(records: Seq<PatientV>, id: Seq<char>)
    ensures
        forall|i: int| 0 <= i < spec_without_id(records, id).len()
            ==> #[trigger] spec_without_id(records, id)[i].id != id,
{
    let pred = |p: PatientV| p.id != id;
    assert forall|i: int| 0 <= i < spec_without_id(records, id).len() implies #[trigger] spec_without_id(
        records,
        id,
    )[i].id != id by {
        records.lemma_filter_pred(pred, i);
    }
}

/// Law: deleting an id that no record carries changes nothing — the delete
/// operation is idempotent and a miss is not an error.
pub proof fn lemma_delete_absent_id_is_noop(records: Seq<PatientV>, id: Seq<char>)
    requires
        forall|i: int| 0 <= i < records.len() ==> #[trigger] records[i].id != id,
    ensures
        spec_without_id(records, id) == records,
{
    lemma_filter_keeps_all(records, |p: PatientV| p.id != id);
}

/// `filter` over a sequence extended by one element.
proof fn lemma_filter_push<A>(s: Seq<A>, x: A, pred: spec_fn(A) -> bool)
    ensures
        s.push(x).filter(pred) == if pred(x) {
            s.filter(pred).push(x)
        } else {
            s.filter(pred)
        },
{
    reveal(Seq::filter);
    assert(s.push(x).drop_last() =~= s);
}

/// The collection of managed records of one profile's store, most recent
/// first. Its view is the sequence of record views in that order.
pub struct PatientStore {
    pub patients: Vec<Patient>,
}

impl View for PatientStore {
    type V = Seq<PatientV>;

    open spec fn view(&self) -> Seq<PatientV> {
        self.patients@.map_values(|p: Patient| p@)
    }
}

impl PatientStore {
    /// A freshly created store holds no records.
    pub fn new() -> (r: PatientStore)
        ensures
            r@ == Seq::<PatientV>::empty(),
    {
        let s = PatientStore { patients: Vec::new() };
        proof {
            assert(s@ =~= Seq::<PatientV>::empty());
        }
        s
    }

    /// All records, most recent first.
    pub fn list_patients(&self) -> (r: Vec<Patient>)
        ensures
            r@.len() == self@.len(),
            forall|i: int| 0 <= i < r@.len() ==> #[trigger] r@[i]@ == self@[i],
    {
        let mut out: Vec<Patient> = Vec::new();
        let mut i: usize = 0;
        while i < self.patients.len()
            invariant
                i <= self.patients@.len(),
                out@.len() == i,
                forall|j: int| 0 <= j < i ==> #[trigger] out@[j]@ == self@[j],
            decreases self.patients@.len() - i,
        {
            out.push(self.patients[i].duplicate());
            i = i + 1;
        }
        out
    }

    /// Create a record: assign a fresh identifier and one timestamp used for
    /// both creation and update time, adopt the caller's fields, and place
    /// the record first (most recent first). Returns the stored form.
    pub fn create_patient(&mut self, input: &PatientInput) -> (r: Patient)
        ensures
            final(self)@ == seq![r@] + old(self)@,
            r@.first_name == input@.first_name,
            r@.last_name == input@.last_name,
            r@.birth_date == input@.birth_date,
            r@.gender == input@.gender,
            r@.phone == input@.phone,
            r@.email == input@.email,
            r@.created_at == r@.updated_at,
            r@.id.len() == 36,
            r@.created_at.len() > 0,
    {
        let id = ext::uuid_string();
        let now = ext::now_rfc3339();
        let record = Patient {
            id,
            first_name: input.first_name.clone(),
            last_name: input.last_name.clone(),
            birth_date: input.birth_date.clone(),
            gender: input.gender.clone(),
            phone: input.phone.clone(),
            email: match &input.email {
                Some(e) => Some(e.clone()),
                None => None,
            },
            created_at: now.clone(),
            updated_at: now,
        };
        let stored = record.duplicate();
        self.patients.insert(0, stored);
        proof {
            assert(self@ =~= seq![record@] + old(self)@);
        }
        record
    }

    /// Delete by id: every record with another id is retained, in order;
    /// deleting an id that no record carries changes nothing (and is not an
    /// error).
    pub fn delete_patient(&mut self, patient_id: &str)
        ensures
            final(self)@ == spec_without_id(old(self)@, patient_id@),
    {
        let ghost pred = |p: PatientV| p.id != patient_id@;
        let mut kept: Vec<Patient> = Vec::new();
        let mut i: usize = 0;
        while i < self.patients.len()
            invariant
                i <= self.patients@.len(),
                self.patients@ == old(self).patients@,
                kept@.map_values(|p: Patient| p@) == old(self)@.subrange(0, i as int).filter(
                    pred,
                ),
                pred == (|p: PatientV| p.id != patient_id@),
            decreases self.patients@.len() - i,
        {
            let ghost prefix = old(self)@.subrange(0, i as int);
            let p = &self.patients[i];
            if !str_eq(p.id.as_str(), patient_id) {
                kept.push(p.duplicate());
            }
            i = i + 1;
            proof {
                assert(old(self)@.subrange(0, i as int) =~= prefix.push(old(self)@[i - 1]));
                lemma_filter_push(prefix, old(self)@[i - 1], pred);
                assert(kept@.map_values(|p: Patient| p@) =~= old(self)@.subrange(0, i as int)
                    .filter(pred));
            }
        }
        proof {
            assert(old(self)@.subrange(0, old(self)@.len() as int) =~= old(self)@);
        }
        self.patients = kept;
    }

    /// Look a record up by id: some record with that id when one exists,
    /// nothing otherwise.
    pub fn get_patient(&self, patient_id: &str) -> (r: Option<Patient>)
        ensures
            r matches Some(p) ==> p@.id == patient_id@ && self@.contains(p@),
            r is Some <==> exists|i: int| 0 <= i < self@.len() && #[trigger] self@[i].id
                == patient_id@,
    {
        let mut i: usize = 0;
        while i < self.patients.len()
            invariant
                i <= self.patients@.len(),
                forall|j: int| 0 <= j < i ==> #[trigger] self@[j].id != patient_id@,
            decreases self.patients@.len() - i,
        {
            let p = &self.patients[i];
            if str_eq(p.id.as_str(), patient_id) {
                let found = p.duplicate();
                proof {
                    assert(self@[i as int].id == patient_id@);
                }
                return Some(found);
            }
            i = i + 1;
        }
        None
    }
}

/// Whether two string slices hold the same characters.
pub fn str_eq(a: &str, b: &str) -> (r: bool)
    ensures
        r == (a@ == b@),
{
    let sa = String::from_str(a);
    let sb = String::from_str(b);
    sa == sb
}

} // verus!
