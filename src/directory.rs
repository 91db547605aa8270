//! The location directory: one record per user, written by upsert.

use vstd::prelude::*;

use crate::error::{write_failure, MapBotError};
use crate::location::{Location, LocationView};

verus! {

/// The mathematical value of a directory record.
pub struct RecordView {
    pub location: LocationView,
    pub user_name: Seq<char>,
}

/// The records, keyed by user identity.
pub type Records = Map<Seq<char>, RecordView>;

pub open spec fn record_of(location: &Location, user_name: &String) -> RecordView {
    RecordView { location: location@, user_name: user_name@ }
}

/// Whether the directory holds a record for `user_id`.
pub open spec fn present(records: Records, user_id: Seq<char>) -> bool {
    records.contains_key(user_id)
}

/// The records after an upsert: the user's record is created or replaced whole.
pub open spec fn saved(records: Records, user_id: Seq<char>, record: RecordView) -> Records {
    records.insert(user_id, record)
}

/// The records after a delete: the user's record is gone, if there was one.
pub open spec fn deleted(records: Records, user_id: Seq<char>) -> Records {
    records.remove(user_id)
}

/// A store of location records with upsert semantics.
///
/// A failed operation changes the records by the whole of its own effect or
/// not at all: a remote write may land before its failure is seen, but no
/// other record moves and no record is left half written.
pub trait LocationStorageService {
    spec fn records(&self) -> Records;

    /// The store's own consistency, which every operation keeps.
    spec fn wf(&self) -> bool;

    /// A store whose operations never fail, such as one held in memory.
    spec fn infallible(&self) -> bool;

    /// Whether a record for `user_id` is present.
    fn has_location(&self, user_id: &String) -> (r: Result<bool, MapBotError>)
        requires
            self.wf(),
        ensures
            self.infallible() ==> r is Ok,
            r matches Ok(b) ==> b == present(self.records(), user_id@),
            r matches Err(e) ==> e == MapBotError::StorageUnavailable;

    /// Creates the user's record, or replaces its location and name.
    fn save_location(&mut self, user_id: &String, location: Location, user_name: &String) -> (r:
        Result<(), MapBotError>)
        requires
            old(self).wf(),
        ensures
            final(self).wf(),
            final(self).infallible() == old(self).infallible(),
            old(self).infallible() ==> r is Ok,
            r is Ok ==> final(self).records() == saved(
                old(self).records(),
                user_id@,
                record_of(&location, user_name),
            ),
            r matches Err(e) ==> write_failure(e) && (final(self).records() == old(self).records()
                || final(self).records() == saved(
                old(self).records(),
                user_id@,
                record_of(&location, user_name),
            )),
    ;

    /// Removes the user's record; absent is no error.
    fn delete_location(&mut self, user_id: &String) -> (r: Result<(), MapBotError>)
        requires
            old(self).wf(),
        ensures
            final(self).wf(),
            final(self).infallible() == old(self).infallible(),
            old(self).infallible() ==> r is Ok,
            r is Ok ==> final(self).records() == deleted(old(self).records(), user_id@),
            r matches Err(e) ==> write_failure(e) && (final(self).records() == old(self).records()
                || final(self).records() == deleted(old(self).records(), user_id@)),
    ;
}

/// Saving makes the record present, and a second save replaces the first
/// whole: one record per user, holding what was saved last.
pub proof fn lemma_save_upserts(
    records: Records,
    user_id: Seq<char>,
    first: RecordView,
    second: RecordView,
)
    ensures
        present(saved(records, user_id, first), user_id),
        saved(records, user_id, first)[user_id] == first,
        saved(saved(records, user_id, first), user_id, second) == saved(records, user_id, second),
        saved(saved(records, user_id, first), user_id, second).dom() == records.dom().insert(
            user_id,
        ),
{
    assert(saved(saved(records, user_id, first), user_id, second) =~= saved(
        records,
        user_id,
        second,
    ));
}

/// Deleting a record that is not there changes nothing, and deleting twice
/// is the same as deleting once.
pub proof fn lemma_delete_idempotent(records: Records, user_id: Seq<char>)
    ensures
        !present(records, user_id) ==> deleted(records, user_id) == records,
        deleted(deleted(records, user_id), user_id) == deleted(records, user_id),
        !present(deleted(records, user_id), user_id),
{
    assert(deleted(deleted(records, user_id), user_id) =~= deleted(records, user_id));
    if !present(records, user_id) {
        assert(deleted(records, user_id) =~= records);
    }
}

/// A saved record reads back exactly: the same location, the same decimal
/// digits of a point, the same name.
pub proof fn lemma_save_then_read(records: Records, user_id: Seq<char>, location: Location, user_name: String)
    ensures
        saved(records, user_id, record_of(&location, &user_name))[user_id].location == location@,
        saved(records, user_id, record_of(&location, &user_name))[user_id].user_name == user_name@,
{
}

} // verus!
