//! The chat commands: each turns a user's request into store operations and
//! a reply, and no failure escapes as anything but a reply.

use vstd::prelude::*;

use crate::decimal::decimal_text;
use crate::directory::{deleted, saved, LocationStorageService, RecordView};
use crate::error::{error_message, write_failure, MapBotError};
use crate::geocoding::{is_blank, place_argument, resolution, resolve, GeocodingService};
use crate::location::{Coordinates, Flight, Location, LocationView};

verus! {

/// The record a revealed point is saved as.
pub open spec fn point_record(c: Coordinates, user_name: Seq<char>) -> RecordView {
    RecordView { location: LocationView::Coordinates(c), user_name }
}

/// `Location (<lat>, <lng>) received.`
pub open spec fn received_text(c: Coordinates) -> Seq<char> {
    "Location ("@ + decimal_text(c.lat@.0, c.lat@.1) + ", "@ + decimal_text(c.lng@.0, c.lng@.1)
        + ") received."@
}

pub open spec fn cleared_text() -> Seq<char> {
    "Your location was removed."@
}

/// `Flight <id> received.`
pub open spec fn flight_text(id: Seq<char>) -> Seq<char> {
    "Flight "@ + id + " received."@
}

/// Reveal-location: resolves the place named in `text` with one request to
/// the provider, and saves the first candidate as the user's location.
///
/// A blank `text` never reaches the provider. Nothing is written unless the
/// place resolved; a store that cannot fail always takes the write.
pub fn reveal_location<G: GeocodingService, S: LocationStorageService>(
    geocoder: &mut G,
    store: &mut S,
    user_id: &String,
    user_name: &String,
    text: &String,
) -> (r: Result<Coordinates, MapBotError>)
    requires
        old(store).wf(),
    ensures
        final(store).wf(),
        final(store).infallible() == old(store).infallible(),
        forall|p: Seq<char>| #[trigger] final(geocoder).answer(p) == old(geocoder).answer(p),
        is_blank(text@) ==> final(geocoder).asked() == old(geocoder).asked(),
        !is_blank(text@) ==> final(geocoder).asked() == old(geocoder).asked().push(text@),
        is_blank(text@) ==> r == Err::<Coordinates, MapBotError>(MapBotError::InvalidArgument)
            && final(store).records() == old(store).records(),
        !is_blank(text@) ==> match resolution(old(geocoder).answer(text@)) {
            Err(e) => r == Err::<Coordinates, MapBotError>(e) && final(store).records() == old(
                store,
            ).records(),
            Ok(c) => {
                &&& r == Ok::<Coordinates, MapBotError>(c) || (r matches Err(e) && write_failure(e))
                &&& old(store).infallible() ==> r == Ok::<Coordinates, MapBotError>(c)
                &&& r is Ok ==> final(store).records() == saved(
                    old(store).records(),
                    user_id@,
                    point_record(c, user_name@),
                )
                &&& final(store).records() == old(store).records() || final(store).records()
                    == saved(old(store).records(), user_id@, point_record(c, user_name@))
            },
        },
{
    let place = match place_argument(text) {
        Ok(p) => p,
        Err(e) => return Err(e),
    };
    let candidates = match geocoder.geocode(&place) {
        Ok(c) => c,
        Err(e) => return Err(e),
    };
    let coords = match resolve(&candidates) {
        Ok(c) => c,
        Err(e) => return Err(e),
    };
    match store.save_location(user_id, Location::Coordinates(coords), user_name) {
        Ok(()) => Ok(coords),
        Err(e) => Err(e),
    }
}

/// The reply to reveal-location.
pub fn reveal_reply(result: &Result<Coordinates, MapBotError>) -> (r: String)
    ensures
        *result matches Ok(c) ==> r@ == received_text(c),
        *result matches Err(e) ==> r@ == error_message(e),
{
    match result {
        Ok(c) => {
            let mut s = String::from_str("Location (");
            s.append(c.lat.to_text().as_str());
            s.append(", ");
            s.append(c.lng.to_text().as_str());
            s.append(") received.");
            s
        },
        Err(e) => e.message(),
    }
}

/// Clear-location: removes the user's record; a user with none is no error.
pub fn clear_location<S: LocationStorageService>(store: &mut S, user_id: &String) -> (r: Result<
    (),
    MapBotError,
>)
    requires
        old(store).wf(),
    ensures
        final(store).wf(),
        final(store).infallible() == old(store).infallible(),
        old(store).infallible() ==> r is Ok,
        r is Ok ==> final(store).records() == deleted(old(store).records(), user_id@),
        r matches Err(e) ==> write_failure(e),
        final(store).records() == old(store).records() || final(store).records() == deleted(
            old(store).records(),
            user_id@,
        ),
{
    store.delete_location(user_id)
}

/// The reply to clear-location.
pub fn clear_reply(result: &Result<(), MapBotError>) -> (r: String)
    ensures
        result is Ok ==> r@ == cleared_text(),
        *result matches Err(e) ==> r@ == error_message(e),
{
    match result {
        Ok(()) => String::from_str("Your location was removed."),
        Err(e) => e.message(),
    }
}

/// The record a registered flight is saved as.
pub open spec fn flight_record(id: Seq<char>, user_name: Seq<char>) -> RecordView {
    RecordView { location: LocationView::Flight(id), user_name }
}

/// Flight: saves the flight identifier in `text`, unvalidated, as the user's
/// location.
pub fn register_flight<S: LocationStorageService>(
    store: &mut S,
    user_id: &String,
    user_name: &String,
    text: &String,
) -> (r: Result<(), MapBotError>)
    requires
        old(store).wf(),
    ensures
        final(store).wf(),
        final(store).infallible() == old(store).infallible(),
        is_blank(text@) ==> r == Err::<(), MapBotError>(MapBotError::InvalidArgument)
            && final(store).records() == old(store).records(),
        !is_blank(text@) ==> {
            &&& r is Ok || (r matches Err(e) && write_failure(e))
            &&& old(store).infallible() ==> r is Ok
            &&& r is Ok ==> final(store).records() == saved(
                old(store).records(),
                user_id@,
                flight_record(text@, user_name@),
            )
            &&& final(store).records() == old(store).records() || final(store).records() == saved(
                old(store).records(),
                user_id@,
                flight_record(text@, user_name@),
            )
        },
{
    let id = match place_argument(text) {
        Ok(p) => p,
        Err(e) => return Err(e),
    };
    store.save_location(user_id, Location::Flight(Flight { id }), user_name)
}

/// The reply to flight.
pub fn flight_reply(text: &String, result: &Result<(), MapBotError>) -> (r: String)
    ensures
        result is Ok ==> r@ == flight_text(text@),
        *result matches Err(e) ==> r@ == error_message(e),
{
    match result {
        Ok(()) => {
            let mut s = String::from_str("Flight ");
            s.append(text.as_str());
            s.append(" received.");
            s
        },
        Err(e) => e.message(),
    }
}

} // verus!
