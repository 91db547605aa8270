//! Turning a place's name into coordinates.

use vstd::prelude::*;

use crate::error::MapBotError;
use crate::location::Coordinates;

verus! {

/// Unicode White_Space, as `char::is_whitespace` tests it.
pub open spec fn is_space(c: char) -> bool {
    ||| '\t' <= c <= '\r'
    ||| c == ' '
    ||| c == '\u{85}'
    ||| c == '\u{a0}'
    ||| c == '\u{1680}'
    ||| '\u{2000}' <= c <= '\u{200a}'
    ||| c == '\u{2028}'
    ||| c == '\u{2029}'
    ||| c == '\u{202f}'
    ||| c == '\u{205f}'
    ||| c == '\u{3000}'
}

/// Text with no character but whitespace, the empty text included.
pub open spec fn is_blank(s: Seq<char>) -> bool {
    forall|i: int| 0 <= i < s.len() ==> is_space(#[trigger] s[i])
}

pub fn space_char(c: char) -> (r: bool)
    ensures
        r == is_space(c),
{
    ('\t' <= c && c <= '\r') || c == ' ' || c == '\u{85}' || c == '\u{a0}' || c == '\u{1680}' || (
    '\u{2000}' <= c && c <= '\u{200a}') || c == '\u{2028}' || c == '\u{2029}' || c == '\u{202f}'
        || c == '\u{205f}' || c == '\u{3000}'
}

pub fn blank(s: &str) -> (r: bool)
    ensures
        r == is_blank(s@),
{
    let n = s.unicode_len();
    let mut i: usize = 0;
    while i < n
        invariant
            n == s@.len(),
            i <= n,
            forall|j: int| 0 <= j < i ==> is_space(#[trigger] s@[j]),
        decreases n - i,
    {
        if !space_char(s.get_char(i)) {
            return false;
        }
        i = i + 1;
    }
    true
}

/// The place a command names: its argument, unless that is blank.
pub fn place_argument(text: &String) -> (r: Result<String, MapBotError>)
    ensures
        is_blank(text@) ==> r == Err::<String, MapBotError>(MapBotError::InvalidArgument),
        !is_blank(text@) ==> (r matches Ok(p) && p@ == text@),
{
    if blank(text.as_str()) {
        Err(MapBotError::InvalidArgument)
    } else {
        Ok(text.clone())
    }
}

/// The provider's first candidate is the answer; none is `LocationNotFound`.
pub fn resolve(candidates: &Vec<Coordinates>) -> (r: Result<Coordinates, MapBotError>)
    ensures
        candidates@.len() > 0 ==> r == Ok::<Coordinates, MapBotError>(candidates@[0]),
        candidates@.len() == 0 ==> r == Err::<Coordinates, MapBotError>(
            MapBotError::LocationNotFound,
        ),
{
    if candidates.len() > 0 {
        Ok(candidates[0])
    } else {
        Err(MapBotError::LocationNotFound)
    }
}

/// The coordinates a provider's answer resolves to: its first candidate, or
/// the provider's own failure.
pub open spec fn resolution(answer: Result<Seq<Coordinates>, MapBotError>) -> Result<
    Coordinates,
    MapBotError,
> {
    match answer {
        Ok(c) => if c.len() > 0 {
            Ok(c[0])
        } else {
            Err(MapBotError::LocationNotFound)
        },
        Err(e) => Err(e),
    }
}

/// A geocoding provider: one request per call, candidates best first.
pub trait GeocodingService {
    /// What the provider answers for a place.
    spec fn answer(&self, place: Seq<char>) -> Result<Seq<Coordinates>, MapBotError>;

    /// The places sent to the provider so far, in order.
    spec fn asked(&self) -> Seq<Seq<char>>;

    /// Sends one request about a place; a blank place is never sent.
    fn geocode(&mut self, place: &String) -> (r: Result<Vec<Coordinates>, MapBotError>)
        requires
            !is_blank(place@),
        ensures
            final(self).asked() == old(self).asked().push(place@),
            forall|p: Seq<char>| #[trigger] final(self).answer(p) == old(self).answer(p),
            r matches Ok(c) ==> old(self).answer(place@) == Ok::<Seq<Coordinates>, MapBotError>(
                c@,
            ),
            r matches Err(e) ==> old(self).answer(place@) == Err::<Seq<Coordinates>, MapBotError>(
                e,
            ) && e == MapBotError::ProviderUnavailable,
    ;
}

/// A provider that gives the same answer for every place, and keeps the
/// places it was asked about.
pub struct StubGeocoder {
    answer: Result<Vec<Coordinates>, MapBotError>,
    asked: Vec<String>,
}

fn copy_candidates(v: &Vec<Coordinates>) -> (r: Vec<Coordinates>)
    ensures
        r@ == v@,
{
    let mut r: Vec<Coordinates> = Vec::new();
    let mut i: usize = 0;
    while i < v.len()
        invariant
            i <= v@.len(),
            r@ == v@.take(i as int),
        decreases v@.len() - i,
    {
        r.push(v[i]);
        i = i + 1;
        assert(r@ =~= v@.take(i as int));
    }
    assert(v@.take(v@.len() as int) =~= v@);
    r
}

impl StubGeocoder {
    /// A provider whose every answer is these candidates.
    pub fn with_candidates(candidates: Vec<Coordinates>) -> (r: StubGeocoder)
        ensures
            forall|p: Seq<char>|
                r.answer(p) == Ok::<Seq<Coordinates>, MapBotError>(candidates@),
            r.asked() == Seq::<Seq<char>>::empty(),
    {
        StubGeocoder { answer: Ok(candidates), asked: Vec::new() }
    }

    /// A provider that cannot be reached.
    pub fn unavailable() -> (r: StubGeocoder)
        ensures
            forall|p: Seq<char>|
                r.answer(p) == Err::<Seq<Coordinates>, MapBotError>(
                    MapBotError::ProviderUnavailable,
                ),
            r.asked() == Seq::<Seq<char>>::empty(),
    {
        StubGeocoder { answer: Err(MapBotError::ProviderUnavailable), asked: Vec::new() }
    }

    /// The places sent to this provider so far, in order.
    pub fn requests(&self) -> (r: &Vec<String>)
        ensures
            r@.map_values(|p: String| p@) == self.asked(),
    {
        &self.asked
    }
}

impl GeocodingService for StubGeocoder {
    closed spec fn answer(&self, place: Seq<char>) -> Result<Seq<Coordinates>, MapBotError> {
        match self.answer {
            Ok(c) => Ok(c@),
            Err(_) => Err(MapBotError::ProviderUnavailable),
        }
    }

    closed spec fn asked(&self) -> Seq<Seq<char>> {
        self.asked@.map_values(|p: String| p@)
    }

    fn geocode(&mut self, place: &String) -> (r: Result<Vec<Coordinates>, MapBotError>) {
        let ghost before = self.asked@;
        self.asked.push(place.clone());
        assert(self.asked@.map_values(|p: String| p@) =~= before.map_values(|p: String| p@).push(
            place@,
        ));
        match &self.answer {
            Ok(c) => Ok(copy_candidates(c)),
            Err(_) => Err(MapBotError::ProviderUnavailable),
        }
    }
}

} // verus!
