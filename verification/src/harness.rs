//! The record store that sessions and tokens are persisted through.

use crate::error::StorageError;
use vstd::prelude::*;

verus! {

/// The texts that a list of strings holds, in order.
pub open spec fn texts(v: Seq<String>) -> Seq<Seq<char>> {
    Seq::new(v.len(), |i: int| v[i]@)
}

/// A record that can be written as a row of string-encoded field values.
pub trait IntoRow {
    /// The row of this record: one text per field, in the record's field
    /// order.
    spec fn row(&self) -> Seq<Seq<char>>;

    fn into_row(&self) -> (r: Vec<String>)
        ensures
            texts(r@) == self.row(),
    ;
}

/// A record store: any backend that can persist rows under a list of field
/// names and find them again by identifier. Whether an operation goes
/// through is the backend's to decide, so nothing is promised of the
/// results; callers surface an error unchanged. An operation on an
/// identifier reports `NotFound` where no record has it.
pub trait DiskOp {
    /// Persists a new record; `fields` names the attributes to write.
    fn insert<R: IntoRow>(&self, record: &R, fields: &Vec<String>) -> Result<(), StorageError>;

    /// Replaces the record that has the identifier `id`.
    fn update_by_id<R: IntoRow>(&self, id: u64, record: &R, fields: &Vec<String>) -> Result<
        (),
        StorageError,
    >;

    /// The row of the record that has the identifier `id`.
    fn find_by_id(&self, id: u64) -> Result<Vec<String>, StorageError>;

    /// Removes the record that has the identifier `id`.
    fn delete_by_id(&self, id: u64) -> Result<(), StorageError>;
}

/// A copy of a list of field names.
pub fn clone_fields(fields: &Vec<String>) -> (r: Vec<String>)
    ensures
        texts(r@) == texts(fields@),
{
    let mut out: Vec<String> = Vec::new();
    let mut i: usize = 0;
    while i < fields.len()
        invariant
            i <= fields.len(),
            out.len() == i,
            forall|j: int| 0 <= j < i ==> out[j]@ == fields[j]@,
        decreases fields.len() - i,
    {
        out.push(fields[i].clone());
        i += 1;
    }
    assert(texts(out@) =~= texts(fields@));
    out
}

/// Appends `more` to a list of field names, keeping the order of both.
pub fn extend_fields(fields: &mut Vec<String>, more: Vec<String>)
    ensures
        texts(final(fields)@) == texts(old(fields)@) + texts(more@),
{
    let mut more = more;
    let ghost before = fields@;
    let ghost added = more@;
    fields.append(&mut more);
    assert(texts(fields@) =~= texts(before) + texts(added));
}

} // verus!
