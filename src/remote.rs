//! The requests a REST row store is sent, and how its answers are read.
//!
//! The store is a table `location` with columns `user_id` (unique), `location`
//! and `user_name`. An upsert is a select by `user_id`, then an update of that
//! row when one came back, else an insert. The two calls are not atomic: two
//! saves for one user that run at once may both insert, and the last write
//! wins.

use vstd::prelude::*;

use crate::error::MapBotError;
use crate::json::{array_len, json_array_len, json_quoted, quote};
use crate::location::{location_json, Location, LocationView};

verus! {

/// The table that holds the records.
pub const TABLE: &'static str = "location";

/// One call to the row store.
#[derive(Debug)]
pub enum StoreRequest {
    /// Select the `id` of the rows whose `user_id` matches.
    Select { user_id: String },
    /// Update the rows whose `user_id` matches with the JSON object `body`.
    Update { user_id: String, body: String },
    /// Insert the JSON object `body` as a new row.
    Insert { body: String },
    /// Delete the rows whose `user_id` matches.
    Delete { user_id: String },
}

/// `{"location":<location>,"user_name":<name>}`.
pub open spec fn update_json(location: LocationView, user_name: Seq<char>) -> Seq<char> {
    "{\"location\":"@ + location_json(location) + ",\"user_name\":"@ + json_quoted(user_name)
        + "}"@
}

/// `{"location":<location>,"user_id":<id>,"user_name":<name>}`.
pub open spec fn insert_json(user_id: Seq<char>, location: LocationView, user_name: Seq<char>) -> Seq<
    char,
> {
    "{\"location\":"@ + location_json(location) + ",\"user_id\":"@ + json_quoted(user_id)
        + ",\"user_name\":"@ + json_quoted(user_name) + "}"@
}

/// A select found the user when its answer is an array with at least one
/// row; an empty array, or an answer that is no array, means absent.
pub open spec fn found_in(response: Seq<char>) -> bool {
    json_array_len(response) matches Some(n) && n > 0
}

/// The select that tells whether the user has a record.
pub fn exists_request(user_id: &String) -> (r: StoreRequest)
    ensures
        r matches StoreRequest::Select { user_id: u } && u@ == user_id@,
{
    StoreRequest::Select { user_id: user_id.clone() }
}

/// Whether the answer to a select names a row.
pub fn row_found(response: &str) -> (r: bool)
    ensures
        r == found_in(response@),
{
    match array_len(response) {
        Some(n) => n > 0,
        None => false,
    }
}

/// The write of an upsert: an update when the select found the user, an
/// insert otherwise.
pub fn save_request(found: bool, user_id: &String, location: &Location, user_name: &String) -> (r:
    StoreRequest)
    ensures
        found ==> (r matches StoreRequest::Update { user_id: u, body: b } && u@ == user_id@ && b@
            == update_json(location@, user_name@)),
        !found ==> (r matches StoreRequest::Insert { body: b } && b@ == insert_json(
            user_id@,
            location@,
            user_name@,
        )),
{
    let mut body = String::from_str("{\"location\":");
    location.write_json(&mut body);
    if found {
        body.append(",\"user_name\":");
        body.append(quote(user_name.as_str()).as_str());
        body.append("}");
        StoreRequest::Update { user_id: user_id.clone(), body }
    } else {
        body.append(",\"user_id\":");
        body.append(quote(user_id.as_str()).as_str());
        body.append(",\"user_name\":");
        body.append(quote(user_name.as_str()).as_str());
        body.append("}");
        StoreRequest::Insert { body }
    }
}

/// Whether an HTTP status reports success.
pub open spec fn success_status(status: u16) -> bool {
    200 <= status < 300
}

/// Whether an HTTP status refuses the credential.
pub open spec fn auth_status(status: u16) -> bool {
    status == 401 || status == 403
}

/// What the store's answer to a write means: success, a refused credential
/// (the store is unavailable to us), or a rejected write.
pub fn write_outcome(status: u16) -> (r: Result<(), MapBotError>)
    ensures
        success_status(status) ==> r is Ok,
        auth_status(status) ==> r == Err::<(), MapBotError>(MapBotError::StorageUnavailable),
        !success_status(status) && !auth_status(status) ==> r == Err::<(), MapBotError>(
            MapBotError::StorageRejected,
        ),
{
    if 200 <= status && status < 300 {
        Ok(())
    } else if status == 401 || status == 403 {
        Err(MapBotError::StorageUnavailable)
    } else {
        Err(MapBotError::StorageRejected)
    }
}

/// What the store's answer to a select means: whether the user has a row,
/// or, on any failure, that the store is unavailable.
pub fn exists_outcome(status: u16, response: &str) -> (r: Result<bool, MapBotError>)
    ensures
        success_status(status) ==> r == Ok::<bool, MapBotError>(found_in(response@)),
        !success_status(status) ==> r == Err::<bool, MapBotError>(MapBotError::StorageUnavailable),
{
    if 200 <= status && status < 300 {
        Ok(row_found(response))
    } else {
        Err(MapBotError::StorageUnavailable)
    }
}

/// The delete of the user's record.
pub fn delete_request(user_id: &String) -> (r: StoreRequest)
    ensures
        r matches StoreRequest::Delete { user_id: u } && u@ == user_id@,
{
    StoreRequest::Delete { user_id: user_id.clone() }
}

} // verus!
