//! Where a user is: a point, a flight, or a journey, and its stored form.

use vstd::prelude::*;

use crate::decimal::{decimal_text, Decimal};
use crate::json::{json_quoted, quote};

verus! {

/// A resolved geographic point.
#[derive(Clone, Copy, Debug, PartialEq, Eq, Structural)]
pub struct Coordinates {
    pub lat: Decimal,
    pub lng: Decimal,
}

/// A flight, by the identifier its operator gave it; not validated here.
#[derive(Debug, PartialEq, Eq)]
pub struct Flight {
    pub id: String,
}

/// An ordered itinerary of flights that ends at a destination.
#[derive(Debug, PartialEq, Eq)]
pub struct Journey {
    pub flights: Vec<Flight>,
    pub destination: Coordinates,
}

/// Where a user is; exactly one form holds.
#[derive(Debug, PartialEq, Eq)]
pub enum Location {
    Coordinates(Coordinates),
    Flight(Flight),
    Journey(Journey),
}

/// The mathematical value of a `Location`.
pub enum LocationView {
    Coordinates(Coordinates),
    Flight(Seq<char>),
    Journey(Seq<Seq<char>>, Coordinates),
}

pub open spec fn flight_ids(flights: Seq<Flight>) -> Seq<Seq<char>> {
    flights.map_values(|f: Flight| f.id@)
}

impl View for Location {
    type V = LocationView;

    open spec fn view(&self) -> LocationView {
        match self {
            Location::Coordinates(c) => LocationView::Coordinates(*c),
            Location::Flight(f) => LocationView::Flight(f.id@),
            Location::Journey(j) => LocationView::Journey(flight_ids(j.flights@), j.destination),
        }
    }
}

/// `{"lat":"<lat>","lng":"<lng>"}`: rust_decimal writes a decimal as a string.
pub open spec fn coordinates_json(c: Coordinates) -> Seq<char> {
    "{\"lat\":\""@ + decimal_text(c.lat@.0, c.lat@.1) + "\",\"lng\":\""@
        + decimal_text(c.lng@.0, c.lng@.1) + "\"}"@
}

/// `{"id":<id>}`.
pub open spec fn flight_json(id: Seq<char>) -> Seq<char> {
    "{\"id\":"@ + json_quoted(id) + "}"@
}

/// The flights' objects, separated by commas.
pub open spec fn flights_json(ids: Seq<Seq<char>>) -> Seq<char>
    decreases ids.len(),
{
    if ids.len() == 0 {
        Seq::empty()
    } else if ids.len() == 1 {
        flight_json(ids[0])
    } else {
        flights_json(ids.drop_last()) + ","@ + flight_json(ids.last())
    }
}

/// The stored form of a location: an object whose one key names the form.
pub open spec fn location_json(l: LocationView) -> Seq<char> {
    match l {
        LocationView::Coordinates(c) => "{\"Coordinates\":"@ + coordinates_json(c) + "}"@,
        LocationView::Flight(id) => "{\"Flight\":"@ + flight_json(id) + "}"@,
        LocationView::Journey(ids, d) => "{\"Journey\":{\"flights\":["@ + flights_json(ids)
            + "],\"destination\":"@ + coordinates_json(d) + "}}"@,
    }
}

impl Coordinates {
    pub fn new(lat: Decimal, lng: Decimal) -> (r: Coordinates)
        ensures
            r.lat == lat,
            r.lng == lng,
    {
        Coordinates { lat, lng }
    }

    /// Appends the stored form of the point to `out`.
    pub fn write_json(&self, out: &mut String)
        ensures
            final(out)@ == old(out)@ + coordinates_json(*self),
    {
        out.append("{\"lat\":\"");
        out.append(self.lat.to_text().as_str());
        out.append("\",\"lng\":\"");
        out.append(self.lng.to_text().as_str());
        out.append("\"}");
    }
}

impl Flight {
    /// Appends the stored form of the flight to `out`.
    pub fn write_json(&self, out: &mut String)
        ensures
            final(out)@ == old(out)@ + flight_json(self.id@),
    {
        out.append("{\"id\":");
        out.append(quote(self.id.as_str()).as_str());
        out.append("}");
    }
}

impl Location {
    /// Appends the stored form of the location to `out`.
    pub fn write_json(&self, out: &mut String)
        ensures
            final(out)@ == old(out)@ + location_json(self@),
    {
        match self {
            Location::Coordinates(c) => {
                out.append("{\"Coordinates\":");
                c.write_json(out);
                out.append("}");
            },
            Location::Flight(f) => {
                out.append("{\"Flight\":");
                f.write_json(out);
                out.append("}");
            },
            Location::Journey(j) => {
                let ghost start = out@;
                out.append("{\"Journey\":{\"flights\":[");
                let ghost head = out@;
                let ghost ids = flight_ids(j.flights@);
                let mut i: usize = 0;
                while i < j.flights.len()
                    invariant
                        i <= j.flights@.len(),
                        ids == flight_ids(j.flights@),
                        out@ == head + flights_json(ids.take(i as int)),
                    decreases j.flights@.len() - i,
                {
                    let ghost before = out@;
                    if i > 0 {
                        out.append(",");
                    }
                    j.flights[i].write_json(out);
                    proof {
                        let t = ids.take(i as int + 1);
                        assert(t.drop_last() =~= ids.take(i as int));
                        assert(t.last() == j.flights@[i as int].id@);
                        if i == 0 {
                            assert(ids.take(0) =~= Seq::<Seq<char>>::empty());
                        }
                    }
                    i = i + 1;
                }
                assert(ids.take(j.flights@.len() as int) =~= ids);
                out.append("],\"destination\":");
                j.destination.write_json(out);
                out.append("}}");
                assert(out@ =~= start + location_json(self@));
            },
        }
    }

    /// The stored form of the location.
    pub fn to_json(&self) -> (r: String)
        ensures
            r@ == location_json(self@),
    {
        let mut out = String::new();
        self.write_json(&mut out);
        out
    }
}

} // verus!
