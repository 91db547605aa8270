use map_bot::commands::{
    clear_location, clear_reply, flight_reply, register_flight, reveal_location, reveal_reply,
};
use map_bot::decimal::Decimal;
use map_bot::directory::LocationStorageService;
use map_bot::error::MapBotError;
use map_bot::geocoding::{blank, place_argument, resolve, GeocodingService, StubGeocoder};
use map_bot::location::{Coordinates, Flight, Journey, Location};
use map_bot::memory::MemoryDirectory;
use map_bot::remote::{
    delete_request, exists_outcome, exists_request, row_found, save_request, write_outcome,
    StoreRequest,
};

fn dec(mantissa: i128, scale: u32) -> Decimal {
    Decimal::new(mantissa, scale).unwrap()
}

fn london() -> Coordinates {
    Coordinates::new(dec(515074, 4), dec(-1278, 4))
}

fn paris() -> Coordinates {
    Coordinates::new(dec(488566, 4), dec(23522, 4))
}

fn s(text: &str) -> String {
    text.to_string()
}

#[test]
fn decimal_range_is_checked() {
    assert!(Decimal::new(0, 28).is_some());
    assert!(Decimal::new(0, 29).is_none());
    assert!(Decimal::new(79228162514264337593543950335, 0).is_some());
    assert!(Decimal::new(79228162514264337593543950336, 0).is_none());
    assert!(Decimal::new(-79228162514264337593543950335, 0).is_some());
    assert!(Decimal::new(-79228162514264337593543950336, 0).is_none());
    let d = dec(515074, 4);
    assert_eq!(d.mantissa(), 515074);
    assert_eq!(d.scale(), 4);
}

#[test]
fn decimal_text_keeps_every_digit() {
    assert_eq!(dec(515074, 4).to_text(), "51.5074");
    assert_eq!(dec(-1278, 4).to_text(), "-0.1278");
    assert_eq!(dec(515074_0, 5).to_text(), "51.50740");
    assert_eq!(dec(7, 0).to_text(), "7");
}

#[test]
fn point_json_is_tagged() {
    let l = Location::Coordinates(london());
    assert_eq!(l.to_json(), r#"{"Coordinates":{"lat":"51.5074","lng":"-0.1278"}}"#);
}

#[test]
fn flight_json_escapes_the_identifier() {
    let l = Location::Flight(Flight { id: s("BA\"117") });
    assert_eq!(l.to_json(), r#"{"Flight":{"id":"BA\"117"}}"#);
}

#[test]
fn journey_json_keeps_flight_order() {
    let j = Journey {
        flights: vec![Flight { id: s("BA117") }, Flight { id: s("AF22") }],
        destination: paris(),
    };
    assert_eq!(
        Location::Journey(j).to_json(),
        r#"{"Journey":{"flights":[{"id":"BA117"},{"id":"AF22"}],"destination":{"lat":"48.8566","lng":"2.3522"}}}"#
    );
    let empty = Journey { flights: vec![], destination: paris() };
    assert_eq!(
        Location::Journey(empty).to_json(),
        r#"{"Journey":{"flights":[],"destination":{"lat":"48.8566","lng":"2.3522"}}}"#
    );
}

#[test]
fn save_then_exists_and_second_save_replaces() {
    let mut d = MemoryDirectory::new();
    let id = s("1001");
    assert_eq!(d.has_location(&id), Ok(false));
    assert_eq!(d.save_location(&id, Location::Coordinates(london()), &s("ann")), Ok(()));
    assert_eq!(d.has_location(&id), Ok(true));
    assert_eq!(d.len(), 1);
    assert_eq!(d.save_location(&id, Location::Coordinates(paris()), &s("anne")), Ok(()));
    assert_eq!(d.len(), 1);
    assert_eq!(d.location_of(&id), Some(&Location::Coordinates(paris())));
    assert_eq!(d.user_name_of(&id), Some(&s("anne")));
}

#[test]
fn records_are_kept_per_user() {
    let mut d = MemoryDirectory::new();
    d.save_location(&s("1"), Location::Coordinates(london()), &s("a")).unwrap();
    d.save_location(&s("2"), Location::Coordinates(paris()), &s("b")).unwrap();
    assert_eq!(d.len(), 2);
    d.delete_location(&s("1")).unwrap();
    assert_eq!(d.len(), 1);
    assert_eq!(d.location_of(&s("1")), None);
    assert_eq!(d.location_of(&s("2")), Some(&Location::Coordinates(paris())));
}

#[test]
fn delete_of_unknown_user_is_a_no_op() {
    let mut d = MemoryDirectory::new();
    d.save_location(&s("7"), Location::Coordinates(london()), &s("g")).unwrap();
    assert_eq!(d.delete_location(&s("8")), Ok(()));
    assert_eq!(d.len(), 1);
    assert_eq!(d.delete_location(&s("7")), Ok(()));
    assert_eq!(d.delete_location(&s("7")), Ok(()));
    assert_eq!(d.len(), 0);
    assert_eq!(d.has_location(&s("7")), Ok(false));
}

#[test]
fn saved_point_reads_back_exactly() {
    let mut d = MemoryDirectory::new();
    d.save_location(&s("5"), Location::Coordinates(london()), &s("e")).unwrap();
    match d.location_of(&s("5")) {
        Some(Location::Coordinates(c)) => {
            assert_eq!(c.lat.mantissa(), 515074);
            assert_eq!(c.lat.scale(), 4);
            assert_eq!(c.lng.mantissa(), -1278);
            assert_eq!(c.lng.scale(), 4);
            assert_eq!(c.lat.to_text(), "51.5074");
            assert_eq!(c.lng.to_text(), "-0.1278");
        }
        other => panic!("unexpected {:?}", other),
    }
}

#[test]
fn blank_text_is_detected() {
    assert!(blank(""));
    assert!(blank("   "));
    assert!(blank("\t\n\u{3000}"));
    assert!(!blank(" London "));
    assert_eq!(place_argument(&s("  ")), Err(MapBotError::InvalidArgument));
    assert_eq!(place_argument(&s("London")), Ok(s("London")));
}

#[test]
fn resolve_takes_the_first_candidate() {
    assert_eq!(resolve(&vec![london(), paris()]), Ok(london()));
    assert_eq!(resolve(&vec![]), Err(MapBotError::LocationNotFound));
}

#[test]
fn stub_answers_every_place_alike() {
    let mut g = StubGeocoder::with_candidates(vec![paris()]);
    assert_eq!(g.geocode(&s("anywhere")), Ok(vec![paris()]));
    let mut down = StubGeocoder::unavailable();
    assert_eq!(down.geocode(&s("London")), Err(MapBotError::ProviderUnavailable));
}

#[test]
fn reveal_location_saves_the_point_and_replies_with_it() {
    let mut g = StubGeocoder::with_candidates(vec![london()]);
    let mut d = MemoryDirectory::new();
    let r = reveal_location(&mut g, &mut d, &s("42"), &s("ann"), &s("London"));
    assert_eq!(r, Ok(london()));
    assert_eq!(g.requests(), &vec![s("London")]);
    assert_eq!(d.len(), 1);
    assert_eq!(d.location_of(&s("42")), Some(&Location::Coordinates(london())));
    assert_eq!(d.user_name_of(&s("42")), Some(&s("ann")));
    let reply = reveal_reply(&r);
    assert_eq!(reply, "Location (51.5074, -0.1278) received.");
    assert!(reply.contains("51.5074") && reply.contains("-0.1278"));
}

#[test]
fn reveal_location_rejects_blank_text() {
    let mut g = StubGeocoder::with_candidates(vec![london()]);
    let mut d = MemoryDirectory::new();
    let r = reveal_location(&mut g, &mut d, &s("42"), &s("ann"), &s("   "));
    assert_eq!(r, Err(MapBotError::InvalidArgument));
    assert_eq!(d.len(), 0);
    assert!(g.requests().is_empty());
    assert_eq!(reveal_reply(&r), "Please name a place, for example: London.");
}

#[test]
fn unknown_place_leaves_the_directory_untouched() {
    let mut g = StubGeocoder::with_candidates(vec![]);
    let mut d = MemoryDirectory::new();
    d.save_location(&s("9"), Location::Coordinates(paris()), &s("i")).unwrap();
    let r = reveal_location(&mut g, &mut d, &s("42"), &s("ann"), &s("zzzznotaplace"));
    assert_eq!(r, Err(MapBotError::LocationNotFound));
    assert_eq!(g.requests(), &vec![s("zzzznotaplace")]);
    assert_eq!(reveal_reply(&r), "That place could not be found.");
    assert_eq!(d.len(), 1);
    assert_eq!(d.location_of(&s("42")), None);
    assert_eq!(d.location_of(&s("9")), Some(&Location::Coordinates(paris())));
}

#[test]
fn unreachable_provider_is_reported() {
    let mut g = StubGeocoder::unavailable();
    let mut d = MemoryDirectory::new();
    let r = reveal_location(&mut g, &mut d, &s("42"), &s("ann"), &s("London"));
    assert_eq!(r, Err(MapBotError::ProviderUnavailable));
    assert_eq!(d.len(), 0);
    assert_eq!(reveal_reply(&r), "The map service is unavailable, please try again later.");
}

#[test]
fn clear_location_without_record_succeeds() {
    let mut d = MemoryDirectory::new();
    let r = clear_location(&mut d, &s("42"));
    assert_eq!(r, Ok(()));
    assert_eq!(clear_reply(&r), "Your location was removed.");
    assert_eq!(d.len(), 0);
}

#[test]
fn clear_location_removes_the_record() {
    let mut d = MemoryDirectory::new();
    d.save_location(&s("42"), Location::Coordinates(london()), &s("ann")).unwrap();
    assert_eq!(clear_location(&mut d, &s("42")), Ok(()));
    assert_eq!(d.has_location(&s("42")), Ok(false));
}

#[test]
fn flight_is_stored_unvalidated() {
    let mut d = MemoryDirectory::new();
    let r = register_flight(&mut d, &s("42"), &s("ann"), &s("not a flight"));
    assert_eq!(r, Ok(()));
    assert_eq!(
        d.location_of(&s("42")),
        Some(&Location::Flight(Flight { id: s("not a flight") }))
    );
    assert_eq!(flight_reply(&s("not a flight"), &r), "Flight not a flight received.");
    let e = register_flight(&mut d, &s("43"), &s("bo"), &s(""));
    assert_eq!(e, Err(MapBotError::InvalidArgument));
    assert_eq!(d.len(), 1);
}

#[test]
fn select_answers_are_read() {
    assert!(row_found(r#"[{"id":3}]"#));
    assert!(!row_found("[]"));
    assert!(!row_found(r#"{"id":3}"#));
    assert!(!row_found("not json"));
    assert!(!row_found(""));
}

#[test]
fn upsert_writes_update_or_insert() {
    let loc = Location::Coordinates(london());
    match save_request(true, &s("42"), &loc, &s("ann")) {
        StoreRequest::Update { user_id, body } => {
            assert_eq!(user_id, "42");
            assert_eq!(
                body,
                r#"{"location":{"Coordinates":{"lat":"51.5074","lng":"-0.1278"}},"user_name":"ann"}"#
            );
        }
        other => panic!("unexpected {:?}", other),
    }
    match save_request(false, &s("42"), &loc, &s("ann")) {
        StoreRequest::Insert { body } => assert_eq!(
            body,
            r#"{"location":{"Coordinates":{"lat":"51.5074","lng":"-0.1278"}},"user_id":"42","user_name":"ann"}"#
        ),
        other => panic!("unexpected {:?}", other),
    }
}

#[test]
fn select_and_delete_name_the_user() {
    assert!(matches!(exists_request(&s("42")), StoreRequest::Select { user_id } if user_id == "42"));
    assert!(matches!(delete_request(&s("42")), StoreRequest::Delete { user_id } if user_id == "42"));
}

#[test]
fn every_error_has_a_message() {
    assert_eq!(MapBotError::StorageUnavailable.message(), "The location table is unavailable, please try again later.");
    assert_eq!(MapBotError::StorageRejected.message(), "The location table refused the change.");
    assert_eq!(clear_reply(&Err(MapBotError::StorageUnavailable)), "The location table is unavailable, please try again later.");
}

#[test]
fn store_answers_are_classified() {
    assert_eq!(write_outcome(200), Ok(()));
    assert_eq!(write_outcome(201), Ok(()));
    assert_eq!(write_outcome(204), Ok(()));
    assert_eq!(write_outcome(401), Err(MapBotError::StorageUnavailable));
    assert_eq!(write_outcome(403), Err(MapBotError::StorageUnavailable));
    assert_eq!(write_outcome(400), Err(MapBotError::StorageRejected));
    assert_eq!(write_outcome(409), Err(MapBotError::StorageRejected));
    assert_eq!(write_outcome(500), Err(MapBotError::StorageRejected));
    assert_eq!(exists_outcome(200, r#"[{"id":1}]"#), Ok(true));
    assert_eq!(exists_outcome(200, "[]"), Ok(false));
    assert_eq!(exists_outcome(200, "oops"), Ok(false));
    assert_eq!(exists_outcome(401, "[]"), Err(MapBotError::StorageUnavailable));
    assert_eq!(exists_outcome(500, r#"[{"id":1}]"#), Err(MapBotError::StorageUnavailable));
}

#[test]
fn control_characters_are_escaped_in_stored_names() {
    let loc = Location::Flight(Flight { id: s("a\\b\n\u{1}") });
    assert_eq!(loc.to_json(), "{\"Flight\":{\"id\":\"a\\\\b\\n\\u0001\"}}");
}

#[test]
fn zero_keeps_its_scale() {
    assert_eq!(dec(0, 2).to_text(), "0.00");
    assert_eq!(dec(0, 0).to_text(), "0");
    assert_eq!(dec(-5, 3).to_text(), "-0.005");
}
