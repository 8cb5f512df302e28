use wasmair::adsbtypes::{
    is_whitespace, trim, ADSBMessage, ADSBMessagePayload, MessageHeader, Position,
};
use wasmair::esmodel::{
    AdsbUpdateEvent, Aircraft, AircraftState, Station, StationList, StationListState,
};
use wasmair::keyed::{KeySet, KeyedMap};
use wasmair::processor::{
    aircraft_key, fold_aircraft, fold_stations, get_stations_list, load_state,
    process_adsb_message, put_aircraft_state, put_stations_state, translate, ProcessingError, AIRCRAFT_EXPIRATION_SECONDS, AIRCRAFT_SET_KEY,
    EVENTS_SUBJECT, STATION_LIST_KEY,
};
use wasmair::rest::{
    handle_http, query_aircraft, query_stations, respond, route, route_lowered, Response, Route,
};
use wasmair::store::{Aggregate, AggregateStore, Entry};

fn header(icao: &str, type_code: u8) -> MessageHeader {
    MessageHeader {
        downlink_format: 17,
        capability: 5,
        icao_address: icao.to_string(),
        type_code,
    }
}

fn identification(station: (&str, &str), icao: &str, category: u8, callsign: &str) -> ADSBMessage {
    ADSBMessage {
        station_id: station.0.to_string(),
        station_name: station.1.to_string(),
        header: header(icao, 4),
        payload: ADSBMessagePayload::AircraftIdentification {
            emitter_category: category,
            callsign: callsign.to_string(),
        },
    }
}

fn position(station: (&str, &str), icao: &str, altitude: u16, lat: f64, lon: f64) -> ADSBMessage {
    ADSBMessage {
        station_id: station.0.to_string(),
        station_name: station.1.to_string(),
        header: header(icao, 11),
        payload: ADSBMessagePayload::AirbornePosition {
            altitude,
            position: Position { latitude: lat.to_bits(), longitude: lon.to_bits() },
        },
    }
}

fn velocity(station: (&str, &str), icao: &str, heading: f64, speed: f64, rate: i16) -> ADSBMessage {
    ADSBMessage {
        station_id: station.0.to_string(),
        station_name: station.1.to_string(),
        header: header(icao, 19),
        payload: ADSBMessagePayload::AirborneVelocity {
            heading: heading.to_bits(),
            ground_speed: speed.to_bits(),
            vertical_rate: rate,
        },
    }
}

fn lab() -> Station {
    Station { id: "S1".to_string(), name: "Lab".to_string() }
}

fn aircraft_at(store: &AggregateStore, icao: &str, now: u64) -> Option<AircraftState> {
    match store.get(&aircraft_key(icao), now) {
        Some(Aggregate::Aircraft(s)) => Some(s),
        _ => None,
    }
}

#[test]
fn translate_identification_trims_callsign() {
    let event = AdsbUpdateEvent::from(identification(("S1", "Lab"), "A1B2C3", 3, "UAL123 "));
    assert_eq!(
        event,
        AdsbUpdateEvent::AircraftIdentified {
            icao_address: "A1B2C3".to_string(),
            source_station: lab(),
            emitter_category: 3,
            callsign: "UAL123".to_string(),
        }
    );
    assert_eq!(event.key(), "A1B2C3");
    assert_eq!(event.source_station(), &lab());
}

#[test]
fn translate_trims_both_ends_and_keeps_inner_space() {
    let event = AdsbUpdateEvent::from(identification(("S1", "Lab"), "A1", 1, " \tKLM 10\u{a0}\n"));
    match event {
        AdsbUpdateEvent::AircraftIdentified { callsign, .. } => assert_eq!(callsign, "KLM 10"),
        _ => panic!("an identification gives an identification event"),
    }
    let blank = AdsbUpdateEvent::from(identification(("S1", "Lab"), "A1", 1, "   "));
    match blank {
        AdsbUpdateEvent::AircraftIdentified { callsign, .. } => assert_eq!(callsign, ""),
        _ => panic!("an identification gives an identification event"),
    }
}

#[test]
fn translate_position_and_velocity() {
    let p = AdsbUpdateEvent::from(position(("S1", "Lab"), "A1B2C3", 38000, 52.25, 3.5));
    assert_eq!(
        p,
        AdsbUpdateEvent::PositionUpdated {
            icao_address: "A1B2C3".to_string(),
            source_station: lab(),
            altitude: 38000,
            position: Position { latitude: 52.25f64.to_bits(), longitude: 3.5f64.to_bits() },
        }
    );
    let v = AdsbUpdateEvent::from(velocity(("S1", "Lab"), "A1B2C3", 182.5, 159.25, -832));
    assert_eq!(
        v,
        AdsbUpdateEvent::VelocityUpdated {
            icao_address: "A1B2C3".to_string(),
            source_station: lab(),
            heading: 182.5f64.to_bits(),
            ground_speed: 159.25f64.to_bits(),
            vertical_rate: -832,
        }
    );
}

#[test]
fn translate_is_deterministic() {
    let m = velocity(("S2", "Roof"), "4840D6", 90.0, 400.0, 64);
    assert_eq!(AdsbUpdateEvent::from(m.clone()), AdsbUpdateEvent::from(m));
}

#[test]
fn identification_then_position_keeps_callsign() {
    let unseen = AircraftState::default();
    assert_eq!(unseen.generation(), 0);
    assert_eq!(unseen.icao_address, "");
    let e1 = AdsbUpdateEvent::from(identification(("S1", "Lab"), "A1B2C3", 3, "UAL123 "));
    let s1 = Aircraft::apply_event(&unseen, &e1);
    assert_eq!(s1.callsign, "UAL123");
    assert_eq!(s1.emitter_category, 3);
    assert_eq!(s1.generation, 1);
    assert_eq!(s1.icao_address, "A1B2C3");
    assert_eq!(s1.last_reporting_station_id, "S1");
    let e2 = AdsbUpdateEvent::from(position(("S2", "Roof"), "A1B2C3", 12000, 41.5, -72.25));
    let s2 = Aircraft::apply_event(&s1, &e2);
    assert_eq!(
        s2,
        AircraftState {
            generation: 2,
            icao_address: "A1B2C3".to_string(),
            emitter_category: 3,
            callsign: "UAL123".to_string(),
            altitude: 12000,
            position: Position { latitude: 41.5f64.to_bits(), longitude: (-72.25f64).to_bits() },
            heading: 0,
            ground_speed: 0,
            vertical_rate: 0,
            last_reporting_station_id: "S2".to_string(),
        }
    );
    assert_eq!(f64::from_bits(s2.position.longitude), -72.25);
    let e3 = AdsbUpdateEvent::from(velocity(("S1", "Lab"), "A1B2C3", 270.0, 431.5, -64));
    let s3 = Aircraft::apply_event(&s2, &e3);
    assert_eq!(
        s3,
        AircraftState {
            generation: 3,
            heading: 270.0f64.to_bits(),
            ground_speed: 431.5f64.to_bits(),
            vertical_rate: -64,
            last_reporting_station_id: "S1".to_string(),
            ..s2.clone()
        }
    );
}

#[test]
fn same_identification_twice_differs_in_generation_only() {
    let e = AdsbUpdateEvent::from(identification(("S1", "Lab"), "A1B2C3", 3, "UAL123"));
    let once = Aircraft::apply_event(&AircraftState::default(), &e);
    let twice = Aircraft::apply_event(&once, &e);
    assert_eq!(twice, AircraftState { generation: 2, ..once.clone() });
    assert_eq!(twice.callsign, "UAL123");
    assert_eq!(twice.emitter_category, 3);
}

#[test]
fn station_upsert_is_idempotent_and_last_write_wins() {
    let d0 = StationListState::default();
    assert_eq!(d0.generation(), 0);
    assert_eq!(d0.stations.len(), 0);
    let e1 = AdsbUpdateEvent::from(identification(("S1", "Lab"), "A1B2C3", 3, "UAL123"));
    let e2 = AdsbUpdateEvent::from(position(("S1", "Lab"), "FFFFFF", 100, 1.0, 2.0));
    let d1 = StationList::apply_event(&d0, &e1);
    let d2 = StationList::apply_event(&d1, &e2);
    assert_eq!(d1.generation, 1);
    assert_eq!(d2.generation, 2);
    assert_eq!(d2.stations.len(), 1);
    assert_eq!(d1.stations.get(&"S1".to_string()), Some(&lab()));
    assert_eq!(d2.stations.get(&"S1".to_string()), Some(&lab()));
    let e3 = AdsbUpdateEvent::from(velocity(("S1", "Attic"), "A1B2C3", 1.0, 2.0, 3));
    let e4 = AdsbUpdateEvent::from(velocity(("S2", "Roof"), "A1B2C3", 1.0, 2.0, 3));
    let d4 = StationList::apply_event(&StationList::apply_event(&d2, &e3), &e4);
    assert_eq!(d4.generation, 4);
    assert_eq!(d4.stations.len(), 2);
    assert_eq!(
        d4.stations.get(&"S1".to_string()),
        Some(&Station { id: "S1".to_string(), name: "Attic".to_string() })
    );
    assert_eq!(d4.stations.get(&"S3".to_string()), None);
    assert_eq!(d0.stations.len(), 0);
}

#[test]
fn keyed_map_keeps_first_order_and_replaces_values() {
    let mut m: KeyedMap<String> = KeyedMap::new();
    m.insert("b".to_string(), "1".to_string());
    m.insert("a".to_string(), "2".to_string());
    m.insert("b".to_string(), "3".to_string());
    assert_eq!(m.len(), 2);
    assert_eq!(m.key_at(0), "b");
    assert_eq!(m.value_at(0), "3");
    assert_eq!(m.key_at(1), "a");
    assert_eq!(m.get(&"a".to_string()), Some(&"2".to_string()));
    assert_eq!(m.get(&"c".to_string()), None);
    let copy = m.duplicate();
    assert_eq!(copy.len(), 2);
    assert_eq!(copy.get(&"b".to_string()), Some(&"3".to_string()));
}

#[test]
fn key_set_holds_each_member_once() {
    let mut s = KeySet::new();
    assert!(s.members().is_empty());
    s.add("x".to_string());
    s.add("y".to_string());
    s.add("x".to_string());
    assert_eq!(s.members(), vec!["x".to_string(), "y".to_string()]);
}

#[test]
fn constants_and_keys() {
    assert_eq!(EVENTS_SUBJECT, "adsb.events");
    assert_eq!(STATION_LIST_KEY, "adsb:stations");
    assert_eq!(AIRCRAFT_SET_KEY, "adsb:aircraft");
    assert_eq!(AIRCRAFT_EXPIRATION_SECONDS, 600);
    assert_eq!(aircraft_key("A1B2C3"), "adsb:aircraft:A1B2C3");
    assert_eq!(aircraft_key(""), "adsb:aircraft:");
}

#[test]
fn entry_expires_after_its_time_to_live() {
    let value = Aggregate::Aircraft(AircraftState::default());
    let e = Entry { value: value.clone(), written_at: 1000, ttl: Some(600) };
    assert!(e.live_at(1000));
    assert!(e.live_at(1599));
    assert!(!e.live_at(1600));
    assert!(!e.live_at(u64::MAX));
    assert!(e.live_at(0));
    let forever = Entry { value, written_at: 1000, ttl: None };
    assert!(forever.live_at(u64::MAX));
    let mut store = AggregateStore::new();
    store.set("k", Aggregate::Aircraft(AircraftState::default()), Some(0), 5);
    assert!(store.get("k", 5).is_none());
}

#[test]
fn sliding_expiry_is_reset_by_a_rewrite() {
    let mut store = AggregateStore::new();
    let m = identification(("S1", "Lab"), "A1B2C3", 3, "UAL123 ");
    assert!(process_adsb_message(&mut store, m.clone(), 1000).is_ok());
    assert_eq!(aircraft_at(&store, "A1B2C3", 1599).map(|s| s.generation), Some(1));
    assert!(aircraft_at(&store, "A1B2C3", 1600).is_none());
    assert!(process_adsb_message(&mut store, m.clone(), 1500).is_ok());
    assert_eq!(aircraft_at(&store, "A1B2C3", 1600).map(|s| s.generation), Some(2));
    assert_eq!(aircraft_at(&store, "A1B2C3", 2099).map(|s| s.generation), Some(2));
    assert!(aircraft_at(&store, "A1B2C3", 2100).is_none());
    // once expired, the aircraft starts again from the unseen state
    assert!(process_adsb_message(&mut store, m, 2100).is_ok());
    assert_eq!(aircraft_at(&store, "A1B2C3", 2100).map(|s| s.generation), Some(1));
    // the directory never expires
    assert_eq!(get_stations_list(&store, u64::MAX).map(|d| d.generation), Ok(3));
}

#[test]
fn pipeline_scenario_identification_then_position() {
    let mut store = AggregateStore::new();
    let event =
        process_adsb_message(&mut store, identification(("S1", "Lab"), "A1B2C3", 3, "UAL123 "), 10);
    assert_eq!(
        event,
        Ok(AdsbUpdateEvent::AircraftIdentified {
            icao_address: "A1B2C3".to_string(),
            source_station: lab(),
            emitter_category: 3,
            callsign: "UAL123".to_string(),
        })
    );
    let s1 = load_state(&store, "A1B2C3", 10).unwrap();
    assert_eq!(s1.callsign, "UAL123");
    assert_eq!(s1.generation, 1);
    assert_eq!(s1.last_reporting_station_id, "S1");
    let later = process_adsb_message(&mut store, position(("S1", "Lab"), "A1B2C3", 31000, 40.0, -70.5), 20);
    assert!(later.is_ok());
    let s2 = load_state(&store, "A1B2C3", 20).unwrap();
    assert_eq!(s2.callsign, "UAL123");
    assert_eq!(s2.altitude, 31000);
    assert_eq!(s2.position, Position { latitude: 40.0f64.to_bits(), longitude: (-70.5f64).to_bits() });
    assert_eq!(s2.generation, 2);
    assert_eq!(store.set_members(AIRCRAFT_SET_KEY), vec!["adsb:aircraft:A1B2C3".to_string()]);
    let d = get_stations_list(&store, 20).unwrap();
    assert_eq!(d.generation, 2);
    assert_eq!(d.stations.get(&"S1".to_string()), Some(&lab()));
}

#[test]
fn every_report_for_one_aircraft_is_counted() {
    let mut store = AggregateStore::new();
    let n: u64 = 25;
    let mut i: u64 = 0;
    while i < n {
        let m = if i % 2 == 0 {
            velocity(("S1", "Lab"), "ABCDEF", 10.0, 20.0, 30)
        } else {
            position(("S2", "Roof"), "ABCDEF", 500, 1.0, 2.0)
        };
        assert!(process_adsb_message(&mut store, m, 100 + i).is_ok());
        i += 1;
    }
    assert_eq!(load_state(&store, "ABCDEF", 200).unwrap().generation, n);
    assert_eq!(query_stations(&store, 200).unwrap().generation, n);
    assert_eq!(store.set_members(AIRCRAFT_SET_KEY).len(), 1);
}

#[test]
fn unseen_aircraft_and_vacant_directory_are_the_defaults() {
    let store = AggregateStore::new();
    assert_eq!(load_state(&store, "000000", 0), Ok(AircraftState::default()));
    let d = get_stations_list(&store, 0).unwrap();
    assert_eq!(d.generation, 0);
    assert_eq!(d.stations.len(), 0);
    assert!(store.set_members(AIRCRAFT_SET_KEY).is_empty());
    assert_eq!(query_aircraft(&store, 0), Ok(vec![]));
}

#[test]
fn value_of_the_wrong_kind_is_unreadable() {
    let mut store = AggregateStore::new();
    store.set(&aircraft_key("A1"), Aggregate::Stations(StationListState::default()), None, 0);
    assert_eq!(load_state(&store, "A1", 0), Err(ProcessingError::StateUnreadable));
    let refused = process_adsb_message(&mut store, identification(("S1", "Lab"), "A1", 1, "X"), 0);
    assert_eq!(refused, Err(ProcessingError::StateUnreadable));
    assert!(store.set_members(AIRCRAFT_SET_KEY).is_empty());

    let mut other = AggregateStore::new();
    other.set(STATION_LIST_KEY, Aggregate::Aircraft(AircraftState::default()), None, 0);
    assert_eq!(get_stations_list(&other, 0).err(), Some(ProcessingError::StateUnreadable));
    assert_eq!(query_stations(&other, 0).err(), Some(ProcessingError::StateUnreadable));
    let late = process_adsb_message(&mut other, identification(("S1", "Lab"), "A1", 1, "X"), 0);
    assert_eq!(late, Err(ProcessingError::StateUnreadable));
    // the aircraft was written before the directory was found unreadable
    assert_eq!(load_state(&other, "A1", 0).map(|s| s.generation), Ok(1));
}

#[test]
fn exhausted_generation_is_refused() {
    let mut store = AggregateStore::new();
    let full = AircraftState {
        generation: u64::MAX,
        icao_address: "A1".to_string(),
        ..AircraftState::default()
    };
    put_aircraft_state(&mut store, full.clone(), 0);
    let refused = process_adsb_message(&mut store, identification(("S1", "Lab"), "A1", 1, "X"), 1);
    assert_eq!(refused, Err(ProcessingError::GenerationExhausted));
    assert_eq!(load_state(&store, "A1", 1), Ok(full));
    assert_eq!(get_stations_list(&store, 1).unwrap().generation, 0);

    let mut other = AggregateStore::new();
    let mut d = StationListState::default();
    d.generation = u64::MAX;
    put_stations_state(&mut other, d, 0);
    let late = process_adsb_message(&mut other, identification(("S1", "Lab"), "A1", 1, "X"), 1);
    assert_eq!(late, Err(ProcessingError::GenerationExhausted));
    assert_eq!(load_state(&other, "A1", 1).map(|s| s.generation), Ok(1));
}

#[test]
fn list_aircraft_omits_expired_entries() {
    let mut store = AggregateStore::new();
    assert!(process_adsb_message(&mut store, identification(("S1", "Lab"), "AAAAAA", 1, "ONE"), 0).is_ok());
    assert!(process_adsb_message(&mut store, identification(("S1", "Lab"), "BBBBBB", 2, "TWO"), 300).is_ok());
    let both = query_aircraft(&store, 599).unwrap();
    assert_eq!(both.len(), 2);
    assert_eq!(both[0].callsign, "ONE");
    assert_eq!(both[1].callsign, "TWO");
    let one = query_aircraft(&store, 600).unwrap();
    assert_eq!(one.len(), 1);
    assert_eq!(one[0].icao_address, "BBBBBB");
    assert_eq!(
        store.set_members(AIRCRAFT_SET_KEY),
        vec!["adsb:aircraft:AAAAAA".to_string(), "adsb:aircraft:BBBBBB".to_string()]
    );
    assert_eq!(query_aircraft(&store, 900), Ok(vec![]));
}

#[test]
fn list_aircraft_fails_on_a_value_of_the_wrong_kind() {
    let mut store = AggregateStore::new();
    assert!(process_adsb_message(&mut store, identification(("S1", "Lab"), "AAAAAA", 1, "ONE"), 0).is_ok());
    store.set_add(AIRCRAFT_SET_KEY, STATION_LIST_KEY);
    assert_eq!(query_aircraft(&store, 1), Err(ProcessingError::StateUnreadable));
}

#[test]
fn routes_ignore_case() {
    assert_eq!(route("/stations"), Route::Stations);
    assert_eq!(route("/STATIONS"), Route::Stations);
    assert_eq!(route("/Aircraft"), Route::Aircraft);
    assert_eq!(route("/aircraft/"), Route::Unknown);
    assert_eq!(route(""), Route::Unknown);
    assert_eq!(route_lowered("/aircraft"), Route::Aircraft);
    assert_eq!(route_lowered("/stations"), Route::Stations);
    assert_eq!(route_lowered("/STATIONS"), Route::Unknown);
}

#[test]
fn requests_are_answered_from_the_store() {
    let mut store = AggregateStore::new();
    assert!(process_adsb_message(&mut store, identification(("S1", "Lab"), "AAAAAA", 1, "ONE"), 0).is_ok());
    match handle_http(&store, "/AIRCRAFT", 1) {
        Ok(Response::Aircraft(list)) => {
            assert_eq!(list.len(), 1);
            assert_eq!(list[0].callsign, "ONE");
        }
        _ => panic!("the aircraft list was asked for"),
    }
    match handle_http(&store, "/Stations", 1) {
        Ok(Response::Stations(d)) => assert_eq!(d.stations.get(&"S1".to_string()), Some(&lab())),
        _ => panic!("the directory was asked for"),
    }
    assert!(matches!(handle_http(&store, "/", 1), Ok(Response::BadRequest)));
    assert!(matches!(respond(&store, Route::Unknown, 1), Ok(Response::BadRequest)));
}

#[test]
fn steps_decide_what_is_written() {
    let step = translate(identification(("S1", "Lab"), "A1B2C3", 3, "UAL123 "));
    assert_eq!(step.aircraft_key, "adsb:aircraft:A1B2C3");
    assert_eq!(step.event.key(), "A1B2C3");
    let prior = AircraftState { generation: 41, altitude: 900, ..AircraftState::default() };
    let folded = fold_aircraft(step.clone(), Some(prior)).unwrap();
    assert_eq!(folded.aircraft_key, "adsb:aircraft:A1B2C3");
    assert_eq!(folded.aircraft.generation, 42);
    assert_eq!(folded.aircraft.altitude, 900);
    assert_eq!(folded.aircraft.callsign, "UAL123");
    assert_eq!(folded.event, step.event);
    assert_eq!(fold_aircraft(step.clone(), None).unwrap().aircraft.generation, 1);
    let full = AircraftState { generation: u64::MAX, ..AircraftState::default() };
    assert_eq!(fold_aircraft(step.clone(), Some(full)), Err(ProcessingError::GenerationExhausted));

    let stations = fold_stations(step.event.clone(), None).unwrap();
    assert_eq!(stations.stations.generation, 1);
    assert_eq!(stations.stations.stations.get(&"S1".to_string()), Some(&lab()));
    assert_eq!(stations.event, step.event);
    let again = fold_stations(step.event.clone(), Some(stations.stations)).unwrap();
    assert_eq!(again.stations.generation, 2);
    assert_eq!(again.stations.stations.len(), 1);
    let mut full = StationListState::default();
    full.generation = u64::MAX;
    assert_eq!(
        fold_stations(step.event, Some(full)).err(),
        Some(ProcessingError::GenerationExhausted)
    );
}

#[test]
fn white_space_is_the_unicode_property() {
    let mut n: u32 = 0;
    while n <= 0x10FFFF {
        if let Some(c) = char::from_u32(n) {
            assert_eq!(is_whitespace(c), c.is_whitespace(), "U+{:04X}", n);
        }
        n += 1;
    }
    for s in ["", " ", "a", " a", "a ", "\u{2003}a b\u{3000}\r\n", "\u{200b}a\u{200b}", "\ta\u{85}"] {
        assert_eq!(trim(s), s.trim());
    }
}
